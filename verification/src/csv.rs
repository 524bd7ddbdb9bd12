use vstd::prelude::*;
use vstd::string::StrSliceExecFns;
use crate::text::chars_to_string;

verus! {

/// Transforms the character that follows a backslash inside a quoted value.
/// The recognized escapes map to control characters; `*` is not a valid
/// escape, which callers signal by emitting the backslash verbatim; any
/// other character passes through unchanged.
pub fn transform_escape_char(ch: char) -> (r: Result<char, ()>)
    ensures
        ch == 'n' ==> r == Ok::<char, ()>('\n'),
        ch == 't' ==> r == Ok::<char, ()>('\t'),
        ch == 'r' ==> r == Ok::<char, ()>('\r'),
        ch == '0' ==> r == Ok::<char, ()>('\0'),
        ch == '*' ==> r == Err::<char, ()>(()),
        (ch != 'n' && ch != 't' && ch != 'r' && ch != '0' && ch != '*') ==> r == Ok::<char, ()>(
            ch,
        ),
{
    match ch {
        'n' => Ok('\n'),
        't' => Ok('\t'),
        'r' => Ok('\r'),
        '0' => Ok('\0'),
        '*' => Err(()),
        _ => Ok(ch),
    }
}

// ---------------------------------------------------------------------------
// Spec model of the line dialect.
//
// A line holds comma-separated fields. A field that starts with a double
// quote runs to the next unescaped quote; inside the quotes a backslash
// escapes the following character, so a literal quote does not end the
// span. The character right after the closing quote is taken to be the
// delimiter and is skipped. A field that starts with any other character
// runs verbatim to the next comma. A trailing delimiter yields a final
// empty field, and a line with no delimiter yields exactly one field.
// ---------------------------------------------------------------------------
/// Index of the first comma at or after `i`, or the length when none is left.
pub open spec fn comma_idx(s: Seq<char>, i: int) -> int
    decreases s.len() - i,
{
    if i < 0 || i >= s.len() {
        s.len() as int
    } else if s[i] == ',' {
        i
    } else {
        comma_idx(s, i + 1)
    }
}

/// Index of the first unescaped double quote at or after `i`, scanning with
/// escape state `esc`, or the length when the span never closes. A backslash
/// toggles the escape state; any other character clears it.
pub open spec fn quote_end(s: Seq<char>, i: int, esc: bool) -> int
    decreases s.len() - i,
{
    if i < 0 || i >= s.len() {
        s.len() as int
    } else if s[i] == '"' && !esc {
        i
    } else if s[i] == '\\' {
        quote_end(s, i + 1, !esc)
    } else {
        quote_end(s, i + 1, false)
    }
}

pub proof fn lemma_comma_idx_bounds(s: Seq<char>, i: int)
    requires
        0 <= i <= s.len(),
    ensures
        i <= comma_idx(s, i) <= s.len(),
    decreases s.len() - i,
{
    if i < s.len() && s[i] != ',' {
        lemma_comma_idx_bounds(s, i + 1);
    }
}

pub proof fn lemma_quote_end_bounds(s: Seq<char>, i: int, esc: bool)
    requires
        0 <= i <= s.len(),
    ensures
        i <= quote_end(s, i, esc) <= s.len(),
    decreases s.len() - i,
{
    if i < s.len() && !(s[i] == '"' && !esc) {
        if s[i] == '\\' {
            lemma_quote_end_bounds(s, i + 1, !esc);
        } else {
            lemma_quote_end_bounds(s, i + 1, false);
        }
    }
}

/// The fields of one line, per the dialect above.
pub open spec fn csv_split(s: Seq<char>) -> Seq<Seq<char>>
    decreases s.len(),
    via csv_split_decreases
{
    if s.len() == 0 {
        seq![Seq::<char>::empty()]
    } else if s[0] == '"' {
        let j = quote_end(s, 1, false);
        if j >= s.len() {
            seq![s.subrange(1, s.len() as int)]
        } else if j + 1 >= s.len() {
            seq![s.subrange(1, j)]
        } else {
            seq![s.subrange(1, j)] + csv_split(s.skip(j + 2))
        }
    } else {
        let k = comma_idx(s, 0);
        if k >= s.len() {
            seq![s]
        } else {
            seq![s.subrange(0, k)] + csv_split(s.skip(k + 1))
        }
    }
}

#[via_fn]
proof fn csv_split_decreases(s: Seq<char>) {
    if s.len() > 0 {
        if s[0] == '"' {
            lemma_quote_end_bounds(s, 1, false);
        } else {
            lemma_comma_idx_bounds(s, 0);
        }
    }
}

/// The fields of one line when every comma counts, quoted or not — the way
/// a header row is cut into column names.
pub open spec fn plain_split(s: Seq<char>) -> Seq<Seq<char>>
    decreases s.len(),
    via plain_split_decreases
{
    let k = comma_idx(s, 0);
    if k >= s.len() {
        seq![s]
    } else {
        seq![s.subrange(0, k)] + plain_split(s.skip(k + 1))
    }
}

#[via_fn]
proof fn plain_split_decreases(s: Seq<char>) {
    lemma_comma_idx_bounds(s, 0);
}

/// The views of a vector of owned strings.
pub open spec fn seq_views(ss: Seq<String>) -> Seq<Seq<char>> {
    ss.map_values(|s: String| s@)
}

// ---------------------------------------------------------------------------
// Executable splitters.
// ---------------------------------------------------------------------------
/// Finds the first comma at or after `from`, or the length when none is left.
fn scan_comma(s: &str, from: usize, len: usize) -> (k: usize)
    requires
        len == s@.len(),
        from <= len,
    ensures
        k == comma_idx(s@, from as int),
        from <= k <= len,
        k < len ==> s@[k as int] == ',',
{
    let mut k = from;
    loop
        invariant
            len == s@.len(),
            from <= k <= len,
            comma_idx(s@, from as int) == comma_idx(s@, k as int),
        ensures
            k == comma_idx(s@, from as int),
            k <= len,
            k < len ==> s@[k as int] == ',',
        decreases len - k,
    {
        if k == len {
            break ;
        }
        let c = s.get_char(k);
        if c == ',' {
            break ;
        }
        k = k + 1;
    }
    proof {
        lemma_comma_idx_bounds(s@, from as int);
    }
    k
}

/// Finds the first unescaped double quote at or after `from`, starting with
/// a clear escape state, or the length when the span never closes.
fn scan_quote_end(s: &str, from: usize, len: usize) -> (j: usize)
    requires
        len == s@.len(),
        from <= len,
    ensures
        j == quote_end(s@, from as int, false),
        from <= j <= len,
        j < len ==> s@[j as int] == '"',
{
    let mut j = from;
    let mut esc = false;
    loop
        invariant
            len == s@.len(),
            from <= j <= len,
            quote_end(s@, from as int, false) == quote_end(s@, j as int, esc),
        ensures
            j == quote_end(s@, from as int, false),
            j <= len,
            j < len ==> s@[j as int] == '"',
        decreases len - j,
    {
        if j == len {
            break ;
        }
        let c = s.get_char(j);
        if c == '"' && !esc {
            break ;
        }
        if c == '\\' {
            esc = !esc;
        } else {
            esc = false;
        }
        j = j + 1;
    }
    proof {
        lemma_quote_end_bounds(s@, from as int, false);
    }
    j
}

/// Splits one line of delimited text into its fields. Quoted spans may hold
/// the delimiter; a backslash inside a quoted span keeps a literal quote
/// from ending it. The returned fields carry the raw span text: nothing is
/// unescaped here.
pub fn split_column_values(values: &str) -> (r: Vec<String>)
    ensures
        seq_views(r@) == csv_split(values@),
{
    let len = values.unicode_len();
    let mut out: Vec<String> = Vec::new();
    let mut i: usize = 0;
    proof {
        assert(values@.skip(0) =~= values@);
        assert(seq_views(out@) + csv_split(values@) =~= csv_split(values@));
    }
    loop
        invariant_except_break
            csv_split(values@) == seq_views(out@) + csv_split(values@.skip(i as int)),
        invariant
            len == values@.len(),
            i <= len,
        ensures
            csv_split(values@) == seq_views(out@),
        decreases len - i,
    {
        let ghost pre = seq_views(out@);
        let ghost rest = values@.skip(i as int);
        if i == len {
            out.push(String::new());
            proof {
                assert(rest =~= Seq::<char>::empty());
                assert(seq_views(out@) =~= pre + csv_split(rest));
            }
            break ;
        }
        let c = values.get_char(i);
        proof {
            assert(rest[0] == values@[i as int]);
        }
        if c == '"' {
            let j = scan_quote_end(values, i + 1, len);
            proof {
                lemma_quote_end_shift(values@, i as int, i as int + 1, false);
                assert(quote_end(rest, 1, false) == j - i);
            }
            let field = values.substring_char(i + 1, j).to_owned();
            proof {
                assert(rest.subrange(1, quote_end(rest, 1, false)) =~= values@.subrange(
                    i as int + 1,
                    j as int,
                ));
                assert(rest.subrange(1, rest.len() as int) =~= values@.subrange(
                    i as int + 1,
                    len as int,
                ));
            }
            if j >= len || j + 1 >= len {
                out.push(field);
                proof {
                    assert(seq_views(out@) =~= pre + csv_split(rest));
                }
                break ;
            } else {
                out.push(field);
                proof {
                    assert(rest.skip(quote_end(rest, 1, false) + 2) =~= values@.skip(
                        j as int + 2,
                    ));
                    assert(seq_views(out@) =~= pre + seq![field@]);
                    assert(pre + (seq![field@] + csv_split(values@.skip(j as int + 2))) =~= (pre
                        + seq![field@]) + csv_split(values@.skip(j as int + 2)));
                }
                i = j + 2;
            }
        } else {
            let k = scan_comma(values, i, len);
            proof {
                lemma_comma_idx_shift(values@, i as int, i as int);
                assert(comma_idx(rest, 0) == k - i);
            }
            let field = values.substring_char(i, k).to_owned();
            proof {
                assert(rest.subrange(0, comma_idx(rest, 0)) =~= values@.subrange(
                    i as int,
                    k as int,
                ));
                assert(rest =~= values@.subrange(i as int, len as int));
            }
            if k >= len {
                out.push(field);
                proof {
                    assert(seq_views(out@) =~= pre + csv_split(rest));
                }
                break ;
            } else {
                out.push(field);
                proof {
                    assert(rest.skip(comma_idx(rest, 0) + 1) =~= values@.skip(k as int + 1));
                    assert(seq_views(out@) =~= pre + seq![field@]);
                    assert(pre + (seq![field@] + csv_split(values@.skip(k as int + 1))) =~= (pre
                        + seq![field@]) + csv_split(values@.skip(k as int + 1)));
                }
                i = k + 1;
            }
        }
    }
    out
}

/// Splits a line on every comma, the way a header row is cut into column
/// names: quotes are not special here.
pub fn split_plain(line: &str) -> (r: Vec<String>)
    ensures
        seq_views(r@) == plain_split(line@),
{
    let len = line.unicode_len();
    let mut out: Vec<String> = Vec::new();
    let mut i: usize = 0;
    proof {
        assert(line@.skip(0) =~= line@);
        assert(seq_views(out@) + plain_split(line@) =~= plain_split(line@));
    }
    loop
        invariant_except_break
            plain_split(line@) == seq_views(out@) + plain_split(line@.skip(i as int)),
        invariant
            len == line@.len(),
            i <= len,
        ensures
            plain_split(line@) == seq_views(out@),
        decreases len - i,
    {
        let ghost pre = seq_views(out@);
        let ghost rest = line@.skip(i as int);
        let k = scan_comma(line, i, len);
        proof {
            lemma_comma_idx_shift(line@, i as int, i as int);
            assert(comma_idx(rest, 0) == k - i);
        }
        let field = line.substring_char(i, k).to_owned();
        proof {
            assert(rest.subrange(0, comma_idx(rest, 0)) =~= line@.subrange(i as int, k as int));
            assert(rest =~= line@.subrange(i as int, len as int));
        }
        if k >= len {
            out.push(field);
            proof {
                assert(seq_views(out@) =~= pre + plain_split(rest));
            }
            break ;
        } else {
            out.push(field);
            proof {
                assert(rest.skip(comma_idx(rest, 0) + 1) =~= line@.skip(k as int + 1));
                assert(seq_views(out@) =~= pre + seq![field@]);
                assert(pre + (seq![field@] + plain_split(line@.skip(k as int + 1))) =~= (pre
                    + seq![field@]) + plain_split(line@.skip(k as int + 1)));
            }
            i = k + 1;
        }
    }
    out
}

// ---------------------------------------------------------------------------
// The escape-aware lexer.
// ---------------------------------------------------------------------------
/// One token: the delimiter itself, or the text of one value.
#[derive(Debug, PartialEq)]
pub enum Token {
    COMMA,
    String(String),
}

/// What one escaped character contributes to a quoted value: the fixed
/// table maps `n`, `t`, `r` and `0` to control characters, `*` is not a
/// valid escape so the backslash and the `*` both pass through, and any
/// other character passes through unchanged.
pub open spec fn escape_result(c: char) -> Seq<char> {
    if c == 'n' {
        seq!['\n']
    } else if c == 't' {
        seq!['\t']
    } else if c == 'r' {
        seq!['\r']
    } else if c == '0' {
        seq!['\0']
    } else if c == '*' {
        seq!['\\', '*']
    } else {
        seq![c]
    }
}

/// The unescaped text of a quoted value scanned from `i` with escape state
/// `esc`, up to the unescaped quote that closes it (or the end of input).
/// A backslash toggles the escape state; a doubled backslash yields one.
pub open spec fn lex_string(s: Seq<char>, i: int, esc: bool) -> Seq<char>
    decreases s.len() - i,
{
    if i < 0 || i >= s.len() {
        Seq::empty()
    } else if s[i] == '"' && !esc {
        Seq::empty()
    } else if s[i] == '\\' {
        if esc {
            seq!['\\'] + lex_string(s, i + 1, false)
        } else {
            lex_string(s, i + 1, true)
        }
    } else if esc {
        escape_result(s[i]) + lex_string(s, i + 1, false)
    } else {
        seq![s[i]] + lex_string(s, i + 1, false)
    }
}

/// The character the lexer shows at position `p`: the input character, or
/// the placeholder `'0'` once the input is exhausted.
pub open spec fn ch_at(s: Seq<char>, p: int) -> char {
    if 0 <= p < s.len() {
        s[p]
    } else {
        '0'
    }
}

/// A character-position state machine over one line. `position` is the
/// index of the character held in `ch`; `read_position` is the index the
/// next read will take. After construction `ch` holds a placeholder, so
/// one `read_char` call loads the first character before tokens are read.
pub struct CsvLexer {
    pub input: Vec<char>,
    pub position: usize,
    pub read_position: usize,
    pub ch: char,
}

impl CsvLexer {
    pub open spec fn input_view(&self) -> Seq<char> {
        self.input@
    }

    /// The canonical reading state: the next read position is one past the
    /// current one, and `ch` caches the character under `position`.
    pub open spec fn wf(&self) -> bool {
        &&& self.read_position == self.position + 1
        &&& self.position <= self.input_view().len()
        &&& self.ch == ch_at(self.input_view(), self.position as int)
    }

    pub fn new(input: Vec<char>) -> (r: Self)
        ensures
            r.input_view() == input@,
            r.position == 0,
            r.read_position == 0,
            r.ch == '0',
    {
        Self { input, position: 0, read_position: 0, ch: '0' }
    }

    pub fn read_char(&mut self)
        requires
            old(self).read_position < usize::MAX,
        ensures
            final(self).input_view() == old(self).input_view(),
            final(self).ch == ch_at(old(self).input_view(), old(self).read_position as int),
            final(self).position == old(self).read_position,
            final(self).read_position == old(self).read_position + 1,
    {
        if self.read_position >= self.input.len() {
            self.ch = '0';
        } else {
            self.ch = self.input[self.read_position];
        }
        self.position = self.read_position;
        self.read_position = self.read_position + 1;
    }

    /// Reads one token. A comma under the cursor is the delimiter token.
    /// A quote opens a quoted value whose text is unescaped; the lexer is
    /// left standing on the character after the closing quote, so the
    /// delimiter that follows a quoted value comes back as its own token.
    /// Anything else starts a plain value running to the next comma,
    /// which is consumed.
    pub fn next_token(&mut self) -> (tok: Token)
        requires
            old(self).wf(),
            old(self).input_view().len() + 2 <= usize::MAX,
        ensures
            final(self).input_view() == old(self).input_view(),
            final(self).read_position == final(self).position + 1,
            final(self).ch == ch_at(final(self).input_view(), final(self).position as int),
            ({
                let s = old(self).input_view();
                let p = old(self).position as int;
                if p < s.len() && s[p] == ',' {
                    &&& tok == Token::COMMA
                    &&& final(self).position as int == p + 1
                } else if p < s.len() && s[p] == '"' {
                    &&& (tok matches Token::String(c) && c@ == lex_string(s, p + 1, false))
                    &&& final(self).position as int == quote_end(s, p + 1, false) + 1
                } else {
                    &&& (tok matches Token::String(c) && c@ == s.subrange(p, comma_idx(s, p)))
                    &&& final(self).position as int == comma_idx(s, p) + 1
                }
            }),
    {
        let ghost s = self.input_view();
        let ghost p = self.position as int;
        let tok: Token;
        if self.ch == ',' {
            tok = Token::COMMA;
        } else if self.ch == '"' {
            self.read_char();
            let mut content: Vec<char> = Vec::new();
            let mut esc = false;
            loop
                invariant_except_break
                    lex_string(s, p + 1, false) == content@ + lex_string(
                        s,
                        self.position as int,
                        esc,
                    ),
                    quote_end(s, p + 1, false) == quote_end(s, self.position as int, esc),
                invariant
                    self.input_view() == s,
                    s.len() + 2 <= usize::MAX,
                    0 <= p,
                    p + 1 <= self.position as int,
                    self.position <= s.len(),
                    self.read_position == self.position + 1,
                    self.ch == ch_at(s, self.position as int),
                ensures
                    content@ == lex_string(s, p + 1, false),
                    self.position as int == quote_end(s, p + 1, false),
                decreases s.len() - self.position,
            {
                if self.position >= self.input.len() {
                    proof {
                        assert(lex_string(s, self.position as int, esc) =~= Seq::<char>::empty());
                        assert(content@ + Seq::<char>::empty() =~= content@);
                    }
                    break ;
                }
                if self.ch == '"' && !esc {
                    proof {
                        assert(content@ + Seq::<char>::empty() =~= content@);
                    }
                    break ;
                }
                let ghost cur = self.position as int;
                let ghost pre = content@;
                if self.ch == '\\' {
                    if esc {
                        content.push('\\');
                        proof {
                            assert(pre + (seq!['\\'] + lex_string(s, cur + 1, false)) =~= (pre
                                + seq!['\\']) + lex_string(s, cur + 1, false));
                        }
                    }
                    esc = !esc;
                } else {
                    if esc {
                        match transform_escape_char(self.ch) {
                            Ok(c2) => {
                                content.push(c2);
                            },
                            Err(_) => {
                                content.push('\\');
                                content.push(self.ch);
                            },
                        }
                        proof {
                            assert(content@ =~= pre + escape_result(s[cur]));
                            assert(pre + (escape_result(s[cur]) + lex_string(s, cur + 1, false))
                                =~= (pre + escape_result(s[cur])) + lex_string(s, cur + 1, false));
                        }
                    } else {
                        content.push(self.ch);
                        proof {
                            assert(pre + (seq![s[cur]] + lex_string(s, cur + 1, false)) =~= (pre
                                + seq![s[cur]]) + lex_string(s, cur + 1, false));
                        }
                    }
                    esc = false;
                }
                self.read_char();
            }
            tok = Token::String(chars_to_string(&content));
        } else {
            let start = self.position;
            let mut content: Vec<char> = Vec::new();
            loop
                invariant_except_break
                    comma_idx(s, p) == comma_idx(s, self.position as int),
                invariant
                    self.input_view() == s,
                    s.len() + 2 <= usize::MAX,
                    0 <= p,
                    p <= self.position as int,
                    self.position <= s.len(),
                    self.read_position == self.position + 1,
                    self.ch == ch_at(s, self.position as int),
                    content@ == s.subrange(p, self.position as int),
                ensures
                    content@ == s.subrange(p, comma_idx(s, p)),
                    self.position as int == comma_idx(s, p),
                decreases s.len() - self.position,
            {
                if self.position >= self.input.len() {
                    break ;
                }
                if self.ch == ',' {
                    break ;
                }
                let ghost cur = self.position as int;
                content.push(self.ch);
                proof {
                    assert(s.subrange(p, cur).push(s[cur]) =~= s.subrange(p, cur + 1));
                }
                self.read_char();
            }
            tok = Token::String(chars_to_string(&content));
        }
        self.read_char();
        tok
    }
}

// ---------------------------------------------------------------------------
// Assembling a line from fields, and the round trip back.
// ---------------------------------------------------------------------------
/// Whether a field must be quoted when a line is assembled: any field that
/// holds the delimiter must be.
pub open spec fn csv_needs_quoting(f: Seq<char>) -> bool {
    exists|i: int| 0 <= i < f.len() && f[i] == ','
}

/// One field as it stands on an assembled line: quoted when it holds the
/// delimiter, verbatim otherwise.
pub open spec fn csv_encode_field(f: Seq<char>) -> Seq<char> {
    if csv_needs_quoting(f) {
        seq!['"'] + f + seq!['"']
    } else {
        f
    }
}

/// A whole line assembled from fields, delimiter-separated.
pub open spec fn csv_join(fields: Seq<Seq<char>>) -> Seq<char>
    decreases fields.len(),
{
    if fields.len() == 0 {
        Seq::empty()
    } else if fields.len() == 1 {
        csv_encode_field(fields[0])
    } else {
        csv_encode_field(fields[0]) + seq![','] + csv_join(fields.drop_first())
    }
}

/// A field with neither a quote nor a backslash character; commas are fine.
pub open spec fn csv_field_plain(f: Seq<char>) -> bool {
    forall|i: int| 0 <= i < f.len() ==> f[i] != '"' && f[i] != '\\'
}

/// When no comma stands in `[i, k)` and `k` is the length or a comma,
/// `k` is the first comma found from `i`.
pub proof fn lemma_comma_idx_first(s: Seq<char>, i: int, k: int)
    requires
        0 <= i <= k <= s.len(),
        forall|j: int| i <= j < k ==> s[j] != ',',
        k < s.len() ==> s[k] == ',',
    ensures
        comma_idx(s, i) == k,
    decreases k - i,
{
    if i < k {
        lemma_comma_idx_first(s, i + 1, k);
    }
}

/// When neither a quote nor a backslash stands in `[i, k)` and a quote
/// stands at `k`, that quote is the one that closes the span opened
/// before `i`.
pub proof fn lemma_quote_end_first(s: Seq<char>, i: int, k: int)
    requires
        0 <= i <= k < s.len(),
        forall|j: int| i <= j < k ==> s[j] != '"' && s[j] != '\\',
        s[k] == '"',
    ensures
        quote_end(s, i, false) == k,
    decreases k - i,
{
    if i < k {
        lemma_quote_end_first(s, i + 1, k);
    }
}

/// Round trip: assembling a line from fields and splitting it again
/// returns exactly the original fields, for any non-empty field list whose
/// fields hold neither quotes nor backslashes. Commas inside fields are
/// fine — they are what the quoting protects.
pub proof fn lemma_split_round_trip(fields: Seq<Seq<char>>)
    requires
        fields.len() >= 1,
        forall|k: int| 0 <= k < fields.len() ==> csv_field_plain(#[trigger] fields[k]),
    ensures
        csv_split(csv_join(fields)) == fields,
    decreases fields.len(),
{
    let f = fields[0];
    let s = csv_join(fields);
    if fields.len() == 1 {
        if csv_needs_quoting(f) {
            assert(s.len() == f.len() + 2);
            assert(s[0] == '"');
            assert(forall|j: int| 1 <= j < f.len() + 1 ==> s[j] == f[j - 1]);
            lemma_quote_end_first(s, 1, f.len() as int + 1);
            assert(s.subrange(1, f.len() as int + 1) =~= f);
            assert(csv_split(s) =~= fields);
        } else if f.len() == 0 {
            assert(s.len() == 0);
            assert(f =~= Seq::<char>::empty());
            assert(csv_split(s) =~= fields);
        } else {
            assert(s == f);
            assert(csv_field_plain(f));
            assert(f[0] != '"');
            lemma_comma_idx_first(s, 0, s.len() as int);
            assert(csv_split(s) =~= fields);
        }
    } else {
        let rest = fields.drop_first();
        lemma_split_round_trip(rest);
        let e = csv_encode_field(f);
        let tail = csv_join(rest);
        assert(s == e + seq![','] + tail);
        assert(s.len() == e.len() + 1 + tail.len());
        if csv_needs_quoting(f) {
            assert(e.len() == f.len() + 2);
            assert(s[0] == '"');
            assert(forall|j: int| 1 <= j < f.len() + 1 ==> s[j] == f[j - 1]);
            assert(s[f.len() as int + 1] == '"');
            lemma_quote_end_first(s, 1, f.len() as int + 1);
            let j = f.len() as int + 1;
            assert(j + 1 < s.len());
            assert(s.subrange(1, j) =~= f);
            assert(s.skip(j + 2) =~= tail);
            assert(csv_split(s) == seq![f] + csv_split(tail));
            assert(seq![f] + rest =~= fields);
        } else {
            assert(e == f);
            assert(forall|j: int| 0 <= j < f.len() ==> s[j] == f[j]);
            assert(s[f.len() as int] == ',');
            if f.len() > 0 {
                assert(s[0] == f[0]);
                assert(s[0] != '"');
            } else {
                assert(s[0] == ',');
            }
            lemma_comma_idx_first(s, 0, f.len() as int);
            assert(s.subrange(0, f.len() as int) =~= f);
            assert(s.skip(f.len() as int + 1) =~= tail);
            assert(csv_split(s) == seq![f] + csv_split(tail));
            assert(seq![f] + rest =~= fields);
        }
    }
}

/// Shifts `comma_idx` across a prefix drop: scanning the suffix `s.skip(d)`
/// finds the same comma, `d` places earlier.
pub proof fn lemma_comma_idx_shift(s: Seq<char>, d: int, i: int)
    requires
        0 <= d <= s.len(),
        d <= i <= s.len(),
    ensures
        comma_idx(s.skip(d), i - d) == comma_idx(s, i) - d,
    decreases s.len() - i,
{
    if i >= s.len() {
    } else {
        assert(s.skip(d)[i - d] == s[i]);
        if s[i] != ',' {
            lemma_comma_idx_shift(s, d, i + 1);
        }
    }
}

/// Shifts `quote_end` across a prefix drop, for any escape state.
pub proof fn lemma_quote_end_shift(s: Seq<char>, d: int, i: int, esc: bool)
    requires
        0 <= d <= s.len(),
        d <= i <= s.len(),
    ensures
        quote_end(s.skip(d), i - d, esc) == quote_end(s, i, esc) - d,
    decreases s.len() - i,
{
    if i >= s.len() {
    } else {
        assert(s.skip(d)[i - d] == s[i]);
        if s[i] == '"' && !esc {
        } else if s[i] == '\\' {
            lemma_quote_end_shift(s, d, i + 1, !esc);
        } else {
            lemma_quote_end_shift(s, d, i + 1, false);
        }
    }
}

} // verus!
