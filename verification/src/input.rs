//! Source-text input: an in-memory character buffer with a read cursor, and a
//! named source file wrapped around it.

use vstd::prelude::*;
use vstd::std_specs::iter::IteratorSpec;

verus! {

/// Whether `c` has the Unicode `White_Space` property (the set of code points
/// that the tokenizer skips between tokens).
pub open spec fn is_space_char(c: char) -> bool {
    let u = c as u32;
    (0x09 <= u && u <= 0x0D) || u == 0x20 || u == 0x85 || u == 0xA0 || u == 0x1680 || (0x2000
        <= u && u <= 0x200A) || u == 0x2028 || u == 0x2029 || u == 0x202F || u == 0x205F || u
        == 0x3000
}

/// The position of the first non-whitespace character of `s` at or after `i`
/// (or `s.len()` if none is left).
pub open spec fn spec_skip_ws(s: Seq<char>, i: int) -> int
    decreases s.len() - i,
{
    if 0 <= i && i < s.len() && is_space_char(s[i]) {
        spec_skip_ws(s, i + 1)
    } else {
        i
    }
}

pub proof fn lemma_skip_ws_bounds(s: Seq<char>, i: int)
    requires
        0 <= i <= s.len(),
    ensures
        i <= spec_skip_ws(s, i) <= s.len(),
        forall|k: int| i <= k < spec_skip_ws(s, i) ==> is_space_char(s[k]),
        spec_skip_ws(s, i) < s.len() ==> !is_space_char(s[spec_skip_ws(s, i)]),
    decreases s.len() - i,
{
    if i < s.len() && is_space_char(s[i]) {
        lemma_skip_ws_bounds(s, i + 1);
    }
}

/// Executable check for `is_space_char`.
pub fn is_space(c: char) -> (r: bool)
    ensures
        r == is_space_char(c),
{
    let u = c as u32;
    (0x09 <= u && u <= 0x0D) || u == 0x20 || u == 0x85 || u == 0xA0 || u == 0x1680 || (0x2000
        <= u && u <= 0x200A) || u == 0x2028 || u == 0x2029 || u == 0x202F || u == 0x205F || u
        == 0x3000
}

/// Appends one character to a string.
///
/// Relies on `String::push`: appends the given `char` to the end of the
/// `String`.
#[verifier::external_body]
pub(crate) fn push_char(s: &mut String, c: char)
    ensures
        final(s)@ == old(s)@.push(c),
{
    s.push(c)
}

/// Source text held in memory as individual characters, read through a cursor.
pub struct InputFile {
    /// The text, one entry per character.
    pub content: Vec<char>,
    /// The same text as one string.
    pub content_str: String,
    /// The read position, an index into `content`.
    pub cursor: usize,
}

impl InputFile {
    /// The two copies of the text agree and the cursor is inside the text
    /// (one past the last character at most).
    pub open spec fn wf(&self) -> bool {
        self.content@ == self.content_str@ && self.cursor <= self.content@.len()
    }

    pub open spec fn remaining(&self) -> int {
        self.content@.len() - self.cursor
    }

    pub fn new(content: String) -> (r: Self)
        ensures
            r.content@ == content@,
            r.content_str == content,
            r.cursor == 0,
            r.wf(),
    {
        let mut chars: Vec<char> = Vec::new();
        let text: &str = content.as_str();
        let ghost full = text@;
        let mut it = text.chars();
        proof {
            broadcast use vstd::string::axiom_spec_iter;

        }
        loop
            invariant
                it.obeys_prophetic_iter_laws(),
                chars@ + it.remaining() == full,
            ensures
                chars@ == full,
            decreases full.len() - chars@.len(),
        {
            let ghost prev = it;
            let next = it.next();
            proof {
                broadcast use vstd::string::next_postcondition;

                assert(prev.remaining().len() > 0 ==> it.remaining()
                    == prev.remaining().drop_first() && next == Some(prev.remaining()[0]));
                assert(prev.remaining().len() == 0 ==> it.remaining() == prev.remaining()
                    && next is None);
            }
            match next {
                Some(c) => {
                    chars.push(c);
                    proof {
                        assert(chars@ + it.remaining() =~= full);
                    }
                },
                None => {
                    proof {
                        assert(chars@ =~= full);
                    }
                    break ;
                },
            }
        }
        InputFile { content: chars, content_str: content, cursor: 0 }
    }

    #[inline]
    pub fn current_char(&self) -> (c: char)
        requires
            self.cursor < self.content@.len(),
        ensures
            c == self.content@[self.cursor as int],
    {
        self.content[self.cursor]
    }

    #[inline]
    pub fn out_of_bounds(&self) -> (r: bool)
        ensures
            r == (self.cursor >= self.content@.len()),
    {
        self.cursor >= self.content.len()
    }

    #[inline]
    pub fn move_cursor(&mut self, n: usize)
        requires
            old(self).cursor + n <= old(self).content@.len(),
        ensures
            final(self).cursor == old(self).cursor + n,
            final(self).content == old(self).content,
            final(self).content_str == old(self).content_str,
    {
        proof {
            vstd::std_specs::vec::axiom_spec_len(&self.content);
        }
        self.cursor = self.cursor + n;
    }

    #[inline]
    pub fn move_back_cursor(&mut self, n: usize)
        requires
            n <= old(self).cursor,
        ensures
            final(self).cursor == old(self).cursor - n,
            final(self).content == old(self).content,
            final(self).content_str == old(self).content_str,
    {
        self.cursor = self.cursor - n;
    }

    #[inline]
    pub fn get_cursor(&self) -> (r: usize)
        ensures
            r == self.cursor,
    {
        self.cursor
    }

    pub fn skip_spaces(&mut self)
        requires
            old(self).cursor <= old(self).content@.len(),
        ensures
            final(self).cursor == spec_skip_ws(old(self).content@, old(self).cursor as int),
            final(self).content == old(self).content,
            final(self).content_str == old(self).content_str,
    {
        if self.out_of_bounds() {
            return ;
        }
        while !self.out_of_bounds() && is_space(self.current_char())
            invariant
                self.cursor <= self.content@.len(),
                self.content == old(self).content,
                self.content_str == old(self).content_str,
                spec_skip_ws(self.content@, self.cursor as int) == spec_skip_ws(
                    old(self).content@,
                    old(self).cursor as int,
                ),
            decreases self.content@.len() - self.cursor,
        {
            proof {
                vstd::std_specs::vec::axiom_spec_len(&self.content);
            }
            self.cursor = self.cursor + 1;
        }
    }

    /// A fresh string holding the whole text.
    pub fn read_to_string(&self) -> (r: String)
        ensures
            r@ == self.content@,
    {
        let mut s = String::new();
        let mut i: usize = 0;
        while i < self.content.len()
            invariant
                i <= self.content@.len(),
                s@ == self.content@.subrange(0, i as int),
            decreases self.content@.len() - i,
        {
            push_char(&mut s, self.content[i]);
            proof {
                assert(s@ =~= self.content@.subrange(0, i + 1));
            }
            i = i + 1;
        }
        proof {
            assert(s@ =~= self.content@);
        }
        s
    }

    pub fn get_str(&self) -> (r: &str)
        ensures
            r@ == self.content_str@,
    {
        self.content_str.as_str()
    }
}

/// A named source file with a cursor over its text.
pub struct CursoredFile {
    /// The file's name, kept for diagnostics.
    pub name: String,
    /// The file's text and the read position.
    pub file: InputFile,
}

impl CursoredFile {
    pub open spec fn wf(&self) -> bool {
        self.file.wf()
    }

    pub open spec fn chars(&self) -> Seq<char> {
        self.file.content@
    }

    pub open spec fn cur(&self) -> int {
        self.file.cursor as int
    }

    pub open spec fn remaining(&self) -> int {
        self.file.remaining()
    }

    pub fn new(name: String, content: String) -> (r: Self)
        ensures
            r.name == name,
            r.chars() == content@,
            r.file.content_str == content,
            r.cur() == 0,
            r.wf(),
    {
        CursoredFile { name, file: InputFile::new(content) }
    }

    #[inline]
    pub fn current_char(&self) -> (c: char)
        requires
            self.cur() < self.chars().len(),
        ensures
            c == self.chars()[self.cur()],
    {
        self.file.current_char()
    }

    #[inline]
    pub fn out_of_bounds(&self) -> (r: bool)
        ensures
            r == (self.cur() >= self.chars().len()),
    {
        self.file.out_of_bounds()
    }

    #[inline]
    pub fn move_cursor(&mut self, n: usize)
        requires
            old(self).cur() + n <= old(self).chars().len(),
        ensures
            final(self).cur() == old(self).cur() + n,
            final(self).chars() == old(self).chars(),
            final(self).name == old(self).name,
            final(self).file.content_str == old(self).file.content_str,
    {
        self.file.move_cursor(n);
    }

    #[inline]
    pub fn move_back_cursor(&mut self, n: usize)
        requires
            n <= old(self).cur(),
        ensures
            final(self).cur() == old(self).cur() - n,
            final(self).chars() == old(self).chars(),
            final(self).name == old(self).name,
            final(self).file.content_str == old(self).file.content_str,
    {
        self.file.move_back_cursor(n);
    }

    #[inline]
    pub fn get_cursor(&self) -> (r: usize)
        ensures
            r == self.cur(),
    {
        self.file.get_cursor()
    }

    pub fn skip_spaces(&mut self)
        requires
            old(self).wf(),
        ensures
            final(self).cur() == spec_skip_ws(old(self).chars(), old(self).cur()),
            final(self).chars() == old(self).chars(),
            final(self).name == old(self).name,
            final(self).file.content_str == old(self).file.content_str,
            final(self).wf(),
    {
        proof {
            lemma_skip_ws_bounds(self.chars(), self.cur());
        }
        self.file.skip_spaces();
    }
}

/// The command-line request: which source file to compile.  Argument parsing
/// itself is a collaborator's concern; the library only carries the value.
pub struct Cli {
    /// Path of the source file, as given on the command line.
    pub file: String,
}

} // verus!
