//! The text that the parsers read, as a sequence of characters.
use vstd::prelude::*;
use vstd::string::{is_ascii, StringSliceAdditionalSpecFns};

verus! {

/// A text together with its length in characters. A text of ASCII
/// characters alone, as product names are, is read in constant time at any
/// position; another text is read from its start up to the position.
pub struct Input<'a> {
    text: &'a str,
    len: usize,
    ascii: bool,
}

impl<'a> View for Input<'a> {
    type V = Seq<char>;

    closed spec fn view(&self) -> Seq<char> {
        self.text@
    }
}

impl<'a> Input<'a> {
    #[verifier::type_invariant]
    spec fn well_formed(self) -> bool {
        self.len == self.text@.len() && (self.ascii ==> is_ascii(self.text))
    }

    /// The input that holds `text`.
    pub fn new(text: &'a str) -> (r: Input<'a>)
        ensures
            r@ == text@,
    {
        let ascii = text.is_ascii();
        let len = if ascii {
            text.as_bytes().len()
        } else {
            text.unicode_len()
        };
        proof {
            vstd::string::is_ascii_spec_bytes(text);
            if ascii {
                assert(text.spec_bytes().len() == text@.len());
            }
        }
        Input { text, len, ascii }
    }

    /// The number of characters.
    pub fn len(&self) -> (n: usize)
        ensures
            n == self@.len(),
    {
        proof {
            use_type_invariant(self);
        }
        self.len
    }

    /// The character at position `i`.
    pub fn get(&self, i: usize) -> (c: char)
        requires
            i < self@.len(),
        ensures
            c == self@[i as int],
    {
        proof {
            use_type_invariant(self);
        }
        if self.ascii {
            self.text.get_ascii(i) as char
        } else {
            self.text.get_char(i)
        }
    }

    /// The characters from position `from` up to position `to`.
    pub fn slice(&self, from: usize, to: usize) -> (r: &'a str)
        requires
            from <= to <= self@.len(),
        ensures
            r@ == self@.subrange(from as int, to as int),
    {
        proof {
            use_type_invariant(self);
        }
        if self.ascii {
            self.text.substring_ascii(from, to)
        } else {
            self.text.substring_char(from, to)
        }
    }
}

} // verus!
