use vstd::prelude::*;
use vstd::string::StrSliceExecFns;

verus! {

/// Copy-on-write text. Values that recur across millions of rows are kept
/// as shared process-lifetime constants; anything else is an owned heap
/// copy. Both forms read identically — only the allocation strategy
/// differs, which is why the view collapses the two variants.
pub enum LogString {
    Borrowed(&'static str),
    Owned(String),
}

impl View for LogString {
    type V = Seq<char>;

    open spec fn view(&self) -> Seq<char> {
        match self {
            LogString::Borrowed(s) => s@,
            LogString::Owned(s) => s@,
        }
    }
}

impl Clone for LogString {
    fn clone(&self) -> (r: Self)
        ensures
            r == *self,
    {
        match self {
            LogString::Borrowed(s) => LogString::Borrowed(s),
            LogString::Owned(s) => LogString::Owned(s.clone()),
        }
    }
}

impl LogString {
    /// The empty owned form, used as the default for record fields.
    pub fn empty() -> (r: LogString)
        ensures
            r@ == Seq::<char>::empty(),
    {
        LogString::Owned(String::new())
    }

    pub fn as_str(&self) -> (r: &str)
        ensures
            r@ == self@,
    {
        match self {
            LogString::Borrowed(s) => s,
            LogString::Owned(s) => s.as_str(),
        }
    }

    pub fn is_empty(&self) -> (r: bool)
        ensures
            r == (self@.len() == 0),
    {
        self.as_str().is_empty()
    }
}

/// Character-sequence equality of two string slices.
pub fn str_eq(a: &str, b: &str) -> (r: bool)
    ensures
        r == (a@ == b@),
{
    let alen = a.unicode_len();
    let blen = b.unicode_len();
    if alen != blen {
        return false;
    }
    let mut i: usize = 0;
    while i < alen
        invariant
            alen == a@.len(),
            alen == b@.len(),
            i <= alen,
            forall|j: int| 0 <= j < i ==> a@[j] == b@[j],
        decreases alen - i,
    {
        if a.get_char(i) != b.get_char(i) {
            return false;
        }
        i = i + 1;
    }
    proof {
        assert(a@ =~= b@);
    }
    true
}

/// What remains of a character sequence once every double-quote character
/// is dropped.
pub open spec fn remove_quotes(s: Seq<char>) -> Seq<char>
    decreases s.len(),
{
    if s.len() == 0 {
        Seq::empty()
    } else if s[0] == '"' {
        remove_quotes(s.drop_first())
    } else {
        seq![s[0]] + remove_quotes(s.drop_first())
    }
}

/// A sequence without double quotes is left unchanged by `remove_quotes`.
pub proof fn lemma_remove_quotes_identity(s: Seq<char>)
    requires
        forall|i: int| 0 <= i < s.len() ==> s[i] != '"',
    ensures
        remove_quotes(s) == s,
    decreases s.len(),
{
    if s.len() == 0 {
        assert(remove_quotes(s) =~= s);
    } else {
        lemma_remove_quotes_identity(s.drop_first());
        assert(seq![s[0]] + s.drop_first() =~= s);
    }
}

/// Copies `s` with every double-quote character removed.
pub fn strip_quotes(s: &str) -> (r: String)
    ensures
        r@ == remove_quotes(s@),
{
    let len = s.unicode_len();
    let mut out: Vec<char> = Vec::new();
    let mut i: usize = 0;
    proof {
        assert(s@.skip(0) =~= s@);
        assert(out@ + remove_quotes(s@) =~= remove_quotes(s@));
    }
    while i < len
        invariant
            len == s@.len(),
            i <= len,
            remove_quotes(s@) == out@ + remove_quotes(s@.skip(i as int)),
        decreases len - i,
    {
        let c = s.get_char(i);
        proof {
            assert(s@.skip(i as int)[0] == s@[i as int]);
            assert(s@.skip(i as int).drop_first() =~= s@.skip(i as int + 1));
        }
        let ghost prev = out@;
        if c != '"' {
            out.push(c);
            proof {
                assert(out@ =~= prev + seq![c]);
                assert((prev + seq![c]) + remove_quotes(s@.skip(i as int + 1)) =~= prev + (seq![c]
                    + remove_quotes(s@.skip(i as int + 1))));
            }
        }
        i = i + 1;
    }
    proof {
        assert(s@.skip(len as int) =~= Seq::<char>::empty());
        assert(out@ + Seq::<char>::empty() =~= out@);
    }
    chars_to_string(&out)
}

/// Relies on `String`'s `FromIterator` over `char`: collecting characters
/// yields the string made of exactly those characters, in order.
#[verifier::external_body]
pub fn chars_to_string(v: &Vec<char>) -> (r: String)
    ensures
        r@ == v@,
{
    v.iter().collect()
}

} // verus!
