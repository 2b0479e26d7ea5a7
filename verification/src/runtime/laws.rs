//! Laws of the agent configuration text.

use vstd::prelude::*;

use crate::runtime::agent::config_sections;

verus! {

/// Reading one more file appends its section, a "---" rule, its path as a
/// heading and its content, to the sections of the files before it; a file
/// that could not be read adds nothing.
pub proof fn law_read_file_appends_its_section(
    files: Seq<(Seq<char>, Option<Seq<char>>)>,
    path: Seq<char>,
    content: Option<Seq<char>>,
)
    ensures
        content matches Some(c) ==> config_sections(files.push((path, content)))
            == config_sections(files) + "\n---\n\n## "@ + path + "\n\n"@ + c,
        content is None ==> config_sections(files.push((path, content))) == config_sections(files),
{
    assert(files.push((path, content)).subrange(0, files.len() as int) =~= files);
}

/// Every file read contributes its section, in order: the sections of two
/// lists of files one after the other are the sections of the first list
/// followed by those of the second.
pub proof fn law_sections_of_joined_lists(
    a: Seq<(Seq<char>, Option<Seq<char>>)>,
    b: Seq<(Seq<char>, Option<Seq<char>>)>,
)
    ensures
        config_sections(a + b) == config_sections(a) + config_sections(b),
    decreases b.len(),
{
    if b.len() == 0 {
        assert(a + b =~= a);
        assert(config_sections(a) + Seq::<char>::empty() =~= config_sections(a));
    } else {
        let init = b.subrange(0, b.len() - 1);
        law_sections_of_joined_lists(a, init);
        let ab = a + b;
        assert(ab.subrange(0, ab.len() - 1) =~= a + init);
        assert(ab[ab.len() - 1] == b[b.len() - 1]);
        let f = b[b.len() - 1];
        match f.1 {
            Some(c) => {
                assert(config_sections(a) + config_sections(init) + "\n---\n\n## "@ + f.0 + "\n\n"@ + c
                    =~= config_sections(a) + (config_sections(init) + "\n---\n\n## "@ + f.0 + "\n\n"@ + c));
            },
            None => {},
        }
    }
}

} // verus!
