//! Descriptor keys: the strings that name cacheable resources.

use vstd::prelude::*;
use vstd::string::{StrSliceExecFns, StringExecFns};

verus! {

/// What a descriptor key asks for.
pub enum Descriptor {
    /// A program linked from the vertex shader and the fragment shader in
    /// the two files named.
    Program { vertex: String, fragment: String },
    /// A vertex buffer filled from the file named.
    Buffer { path: String },
}

/// A [`Descriptor`] with each path as a sequence of characters.
pub enum DescriptorView {
    Program { vertex: Seq<char>, fragment: Seq<char> },
    Buffer { path: Seq<char> },
}

impl View for Descriptor {
    type V = DescriptorView;

    open spec fn view(&self) -> DescriptorView {
        match self {
            Descriptor::Program { vertex, fragment } => DescriptorView::Program {
                vertex: vertex@,
                fragment: fragment@,
            },
            Descriptor::Buffer { path } => DescriptorView::Buffer { path: path@ },
        }
    }
}

/// The index of the first space in `text`, or its length where it holds
/// none.
pub open spec fn first_space(text: Seq<char>) -> int
    decreases text.len(),
{
    if text.len() == 0 {
        0
    } else if text[0] == ' ' {
        0
    } else {
        1 + first_space(text.skip(1))
    }
}

/// The extension by which the path of a buffer file is known.
pub open spec fn buffer_extension() -> Seq<char> {
    seq!['.', 'a', 'b', 'u', 'f']
}

/// Whether `path` names a buffer file: a name followed by the buffer
/// extension.
pub open spec fn is_buffer_path(path: Seq<char>) -> bool {
    path.len() > buffer_extension().len() && path.skip(path.len() - buffer_extension().len())
        == buffer_extension()
}

/// What a key asks for.
///
/// Two paths with one space between them ask for a program; one path that
/// names a buffer file asks for a buffer; no other key asks for anything.
pub open spec fn parse_key(key: Seq<char>) -> Option<DescriptorView> {
    let at = first_space(key);
    if at == key.len() {
        if is_buffer_path(key) {
            Some(DescriptorView::Buffer { path: key })
        } else {
            None
        }
    } else {
        let vertex = key.take(at);
        let fragment = key.skip(at + 1);
        if vertex.len() > 0 && fragment.len() > 0 && first_space(fragment) == fragment.len() {
            Some(DescriptorView::Program { vertex, fragment })
        } else {
            None
        }
    }
}

/// An index that holds a space, with none before it, is the first space; a
/// text that holds no space has its first space at its end.
pub proof fn lemma_first_space_is(text: Seq<char>, at: int)
    requires
        0 <= at <= text.len(),
        forall|i: int| 0 <= i < at ==> text[i] != ' ',
        at < text.len() ==> text[at] == ' ',
    ensures
        first_space(text) == at,
    decreases text.len(),
{
    if at > 0 {
        assert forall|i: int| 0 <= i < at - 1 implies text.skip(1)[i] != ' ' by {
            assert(text.skip(1)[i] == text[i + 1]);
        }
        if at < text.len() {
            assert(text.skip(1)[at - 1] == text[at]);
        }
        lemma_first_space_is(text.skip(1), at - 1);
    }
}

/// Two paths that hold no space and are not empty, with one space between
/// them, are the key of the program linked from the two.
pub proof fn lemma_program_key(vertex: Seq<char>, fragment: Seq<char>)
    requires
        vertex.len() > 0,
        fragment.len() > 0,
        first_space(vertex) == vertex.len(),
        first_space(fragment) == fragment.len(),
    ensures
        parse_key(vertex + seq![' '] + fragment) == Some(
            DescriptorView::Program { vertex, fragment },
        ),
{
    let key = vertex + seq![' '] + fragment;
    assert forall|i: int| 0 <= i < vertex.len() implies key[i] != ' ' by {
        assert(key[i] == vertex[i]);
        if vertex[i] == ' ' {
            lemma_first_space_bound(vertex, i);
        }
    }
    assert(key[vertex.len() as int] == ' ');
    lemma_first_space_is(key, vertex.len() as int);
    assert(key.take(vertex.len() as int) =~= vertex);
    assert(key.skip(vertex.len() as int + 1) =~= fragment);
}

/// The first space comes no later than any space.
pub proof fn lemma_first_space_bound(text: Seq<char>, at: int)
    requires
        0 <= at < text.len(),
        text[at] == ' ',
    ensures
        first_space(text) <= at,
    decreases text.len(),
{
    if text[0] != ' ' {
        assert(text.skip(1)[at - 1] == text[at]);
        lemma_first_space_bound(text.skip(1), at - 1);
    }
}

/// The index of the first space at or after `from`, or `len` where there is
/// none.
fn find_space(text: &str, from: usize, len: usize) -> (at: usize)
    requires
        from <= len,
        len == text@.len(),
    ensures
        from <= at <= len,
        at == from + first_space(text@.skip(from as int)),
{
    let mut i: usize = from;
    while i < len
        invariant
            from <= i <= len,
            len == text@.len(),
            from + first_space(text@.skip(from as int)) == i + first_space(text@.skip(i as int)),
        decreases len - i,
    {
        if text.get_char(i) == ' ' {
            assert(text@.skip(i as int)[0] == text@[i as int]);
            return i;
        }
        proof {
            assert(text@.skip(i as int)[0] == text@[i as int]);
            assert(text@.skip(i as int).skip(1) =~= text@.skip(i + 1));
        }
        i += 1;
    }
    i
}

/// Whether the text names a buffer file.
fn has_buffer_extension(text: &str, len: usize) -> (found: bool)
    requires
        len == text@.len(),
    ensures
        found == is_buffer_path(text@),
{
    if len <= 5 {
        return false;
    }
    let found = text.get_char(len - 5) == '.' && text.get_char(len - 4) == 'a' && text.get_char(
        len - 3,
    ) == 'b' && text.get_char(len - 2) == 'u' && text.get_char(len - 1) == 'f';
    proof {
        let tail = text@.skip(len - 5);
        assert(tail.len() == 5);
        assert(tail[0] == text@[len - 5]);
        assert(tail[1] == text@[len - 4]);
        assert(tail[2] == text@[len - 3]);
        assert(tail[3] == text@[len - 2]);
        assert(tail[4] == text@[len - 1]);
        if found {
            assert(tail =~= buffer_extension());
        }
    }
    found
}

impl Descriptor {
    /// Reads a descriptor key.
    pub fn parse(key: &str) -> (descriptor: Option<Descriptor>)
        ensures
            match descriptor {
                Some(d) => parse_key(key@) == Some(d@),
                None => parse_key(key@) is None,
            },
    {
        let len = key.unicode_len();
        let at = find_space(key, 0, len);
        assert(key@.skip(0) =~= key@);
        if at == len {
            if has_buffer_extension(key, len) {
                Some(Descriptor::Buffer { path: String::from_str(key) })
            } else {
                None
            }
        } else {
            let second = find_space(key, at + 1, len);
            if at == 0 || at + 1 == len || second != len {
                None
            } else {
                let vertex = String::from_str(key.substring_char(0, at));
                let fragment = String::from_str(key.substring_char(at + 1, len));
                proof {
                    assert(key@.subrange(0, at as int) =~= key@.take(at as int));
                    assert(key@.subrange(at + 1, len as int) =~= key@.skip(at + 1));
                }
                Some(Descriptor::Program { vertex, fragment })
            }
        }
    }
}

} // verus!
