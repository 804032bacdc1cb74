use vstd::prelude::*;

use vstd::slice::slice_subrange;

verus! {

/// `n` is where the text of a nul-terminated buffer ends: no nul comes before
/// it, and it is either the end of the buffer or a nul.
pub open spec fn is_text_end(b: Seq<u8>, n: int) -> bool {
    &&& 0 <= n <= b.len()
    &&& forall|i: int| 0 <= i < n ==> b[i] != 0
    &&& n == b.len() || b[n] == 0
}

/// The length of the text in a nul-terminated buffer.
pub open spec fn text_end(b: Seq<u8>) -> int {
    choose|n: int| is_text_end(b, n)
}

/// Every byte is a 7-bit ASCII code.
pub open spec fn all_ascii(b: Seq<u8>) -> bool {
    forall|i: int| 0 <= i < b.len() ==> b[i] < 0x80
}

/// The characters that `core::str::from_utf8` reads from some bytes, when they
/// are valid UTF-8.
pub uninterp spec fn utf8_text(b: Seq<u8>) -> Option<Seq<char>>;

/// Relies on `core::str::from_utf8`: the bytes read as a string when they are
/// valid UTF-8, and nothing otherwise. UTF-8 encodes each ASCII code as itself,
/// so ASCII bytes are valid and give one character each.
#[verifier::external_body]
fn utf8_of(b: &[u8]) -> (r: Option<&str>)
    ensures
        match r {
            Some(s) => utf8_text(b@) == Some(s@),
            None => utf8_text(b@) is None,
        },
        all_ascii(b@) ==> r is Some && r->Some_0@ == b@.map_values(|c: u8| c as char),
{
    core::str::from_utf8(b).ok()
}

/// The text that a nul-terminated buffer holds: the bytes before the first nul,
/// or all of them when there is none, read as UTF-8; empty when those bytes are
/// not valid UTF-8.
pub open spec fn text_of(b: Seq<u8>) -> Seq<char> {
    match utf8_text(b.take(text_end(b))) {
        Some(t) => t,
        None => Seq::empty(),
    }
}

/// A buffer has exactly one place where its text ends.
pub proof fn lemma_text_end(b: Seq<u8>, n: int)
    requires
        is_text_end(b, n),
    ensures
        text_end(b) == n,
{
    let m = text_end(b);
    assert(is_text_end(b, m));
    if m < n {
        assert(b[m] == 0);
    } else if n < m {
        assert(b[n] == 0);
    }
}

/// Reads a borrowed byte buffer as text.
pub trait AsAscii {
    spec fn ascii_bytes(&self) -> Seq<u8>;

    fn as_ascii(&self) -> (r: String)
        ensures
            r@ == text_of(self.ascii_bytes()),
    ;
}

impl AsAscii for [u8] {
    open spec fn ascii_bytes(&self) -> Seq<u8> {
        self@
    }

    fn as_ascii(&self) -> (r: String) {
        buffer_text(self)
    }
}

/// The text of a nul-terminated buffer; never reads past the buffer's end.
pub fn buffer_text(b: &[u8]) -> (r: String)
    ensures
        r@ == text_of(b@),
{
    let mut n: usize = 0;
    while n < b.len() && b[n] != 0
        invariant
            n <= b.len(),
            forall|i: int| 0 <= i < n ==> b@[i] != 0,
        decreases b.len() - n,
    {
        n = n + 1;
    }
    proof {
        lemma_text_end(b@, n as int);
    }
    let t = slice_subrange(b, 0, n);
    assert(t@ =~= b@.take(n as int));
    match utf8_of(t) {
        Some(s) => String::from_str(s),
        None => String::new(),
    }
}

} // verus!
