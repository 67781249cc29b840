//! Source text and spans over it.

use vstd::prelude::*;
use vstd::string::StrSliceExecFns;

verus! {

/// A half-open range `[start, start + length)` of character positions in
/// the source text.
#[derive(Clone, Copy, Debug, PartialEq, Eq, Structural)]
pub struct TextSpan {
    pub start: usize,
    pub length: usize,
}

impl TextSpan {
    pub open spec fn spec_end(self) -> int {
        self.start + self.length
    }

    pub fn new(start: usize, length: usize) -> (r: TextSpan)
        requires
            start + length <= usize::MAX,
        ensures
            r.start == start,
            r.length == length,
    {
        TextSpan { start, length }
    }

    /// The first position past the span.
    pub fn end(&self) -> (r: usize)
        requires
            self.start + self.length <= usize::MAX,
        ensures
            r == self.spec_end(),
    {
        self.start + self.length
    }
}

/// Immutable holder of the raw input text, read once by the lexer.
///
/// The characters are kept both as a `String` (for slicing out token text)
/// and as a `Vec<char>` (for position-indexed scanning); the two agree.
pub struct SourceText {
    text: String,
    chars: Vec<char>,
}

impl View for SourceText {
    type V = Seq<char>;

    closed spec fn view(&self) -> Seq<char> {
        self.chars@
    }
}

impl SourceText {
    pub closed spec fn wf(&self) -> bool {
        self.chars@ == self.text@
    }

    pub fn new(text: &str) -> (r: SourceText)
        ensures
            r.wf(),
            r@ == text@,
    {
        let n = text.unicode_len();
        let mut chars: Vec<char> = Vec::new();
        let mut i: usize = 0;
        while i < n
            invariant
                i <= n,
                n == text@.len(),
                chars@ == text@.take(i as int),
            decreases n - i,
        {
            chars.push(text.get_char(i));
            proof {
                assert(chars@ =~= text@.take(i + 1));
            }
            i += 1;
        }
        proof {
            assert(chars@ =~= text@);
        }
        SourceText { text: text.to_owned(), chars }
    }

    /// Number of characters in the text.
    pub fn len(&self) -> (r: usize)
        ensures
            r == self@.len(),
    {
        self.chars.len()
    }

    /// The character at position `index`.
    pub fn char_at(&self, index: usize) -> (r: char)
        requires
            index < self@.len(),
        ensures
            r == self@[index as int],
    {
        self.chars[index]
    }

    /// The whole text as a string slice.
    pub fn as_str(&self) -> (r: &str)
        requires
            self.wf(),
        ensures
            r@ == self@,
    {
        self.text.as_str()
    }

    /// The text of the characters in `[from, to)`, as an owned string.
    pub fn substring(&self, from: usize, to: usize) -> (r: String)
        requires
            self.wf(),
            from <= to <= self@.len(),
        ensures
            r@ == self@.subrange(from as int, to as int),
    {
        self.text.as_str().substring_char(from, to).to_owned()
    }
}

/// Compare two string slices character by character.
pub fn str_eq(a: &str, b: &str) -> (r: bool)
    ensures
        r == (a@ == b@),
{
    let an = a.unicode_len();
    let bn = b.unicode_len();
    if an != bn {
        proof {
            assert(a@ != b@);
        }
        return false;
    }
    let mut i: usize = 0;
    while i < an
        invariant
            i <= an,
            an == a@.len(),
            an == b@.len(),
            forall|j: int| 0 <= j < i ==> a@[j] == b@[j],
        decreases an - i,
    {
        if a.get_char(i) != b.get_char(i) {
            proof {
                assert(a@[i as int] != b@[i as int]);
            }
            return false;
        }
        i += 1;
    }
    proof {
        assert(a@ =~= b@);
    }
    true
}

} // verus!
