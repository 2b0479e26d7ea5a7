//! Where and how sessions are stored on disk: one `<id>.jsonl` file per session
//! under the storage directory, whose last non-blank line is the latest state.
//! The reading and writing of files happens at the edge; the rules are here.

use vstd::prelude::*;

use crate::config::types::SessionPersistenceConfig;
use crate::text::{
    all_whitespace, char_rows, chars_of, concat2, is_blank, lines_of, split_lines,
    string_from_chars, string_from_range,
};

verus! {

broadcast use vstd::string::group_string_axioms;

/// The last line of `lines` that is not blank.
pub open spec fn last_nonblank(lines: Seq<Seq<char>>) -> Option<Seq<char>>
    decreases lines.len(),
{
    if lines.len() == 0 {
        None
    } else if !is_blank(lines[lines.len() - 1]) {
        Some(lines[lines.len() - 1])
    } else {
        last_nonblank(lines.subrange(0, lines.len() - 1))
    }
}

/// The latest session state in a session file: its last non-blank line, if any.
pub fn last_nonempty_line(content: &str) -> (r: Option<String>)
    ensures
        r matches Some(s) ==> last_nonblank(lines_of(content@)) == Some(s@),
        r is None ==> last_nonblank(lines_of(content@)) is None,
{
    let chars = chars_of(content);
    let lines = split_lines(chars.as_slice());
    let ghost rows = char_rows(lines@);
    let mut i = lines.len();
    assert(rows.subrange(0, rows.len() as int) =~= rows);
    while i > 0
        invariant
            i <= lines.len(),
            rows == char_rows(lines@),
            rows == lines_of(content@),
            last_nonblank(rows) == last_nonblank(rows.subrange(0, i as int)),
        decreases i,
    {
        let ghost sub = rows.subrange(0, i as int);
        assert(sub[i - 1] == lines@[i - 1]@);
        assert(sub.len() == i);
        if !all_whitespace(lines[i - 1].as_slice()) {
            let r = string_from_chars(lines[i - 1].as_slice());
            assert(!is_blank(sub[i - 1]));
            assert(last_nonblank(sub) == Some(sub[i - 1]));
            assert(r@ == sub[i - 1]);
            assert(last_nonblank(rows) == Some(r@));
            assert(rows == lines_of(content@));
            return Some(r);
        }
        assert(rows.subrange(0, i as int).subrange(0, i - 1) =~= rows.subrange(0, i - 1));
        i = i - 1;
    }
    None
}

/// The path of `file` under directory `base`, as `Path::join` forms it on Unix:
/// an absolute `file` replaces `base`, and one '/' separates them otherwise.
pub open spec fn joined_path(base: Seq<char>, file: Seq<char>) -> Seq<char> {
    if file.len() > 0 && file[0] == '/' {
        file
    } else if base.len() == 0 {
        file
    } else if base[base.len() - 1] == '/' {
        base + file
    } else {
        base + seq!['/'] + file
    }
}

/// `file` under directory `base` (Unix `Path::join`).
pub fn join_path(base: &str, file: &str) -> (r: String)
    ensures
        r@ == joined_path(base@, file@),
{
    let b = chars_of(base);
    let f = chars_of(file);
    if f.len() > 0 && f[0] == '/' {
        return owned_copy(file);
    }
    if b.len() == 0 {
        return owned_copy(file);
    }
    if b[b.len() - 1] == '/' {
        concat2(base, file)
    } else {
        let r = crate::text::concat3(base, "/", file);
        proof {
            reveal_strlit("/");
            assert("/"@ =~= seq!['/']);
        }
        r
    }
}

/// What a session file holds once a session state is saved: the state's
/// line, then '\n'. Saving replaces whatever the file held before.
pub fn session_file_content(line: &str) -> (r: String)
    ensures
        r@ == line@.push('\n'),
{
    let mut r = owned_copy(line);
    crate::text::push_char(&mut r, '\n');
    r
}

fn owned_copy(s: &str) -> (r: String)
    ensures
        r@ == s@,
{
    crate::text::owned(s)
}

/// Name of the file that stores session `id`.
pub open spec fn session_file_name(id: Seq<char>) -> Seq<char> {
    id + ".jsonl"@
}

/// The session id stored in a file called `name`: the file stem when the
/// extension (after the last '.', which must not be the first character) is
/// "jsonl".
pub open spec fn session_id_of_file(name: Seq<char>) -> Option<Seq<char>> {
    if exists|i: int|
        0 < i < name.len() && name[i] == '.' && name.subrange(i + 1, name.len() as int)
            == "jsonl"@ && forall|j: int| i < j < name.len() ==> name[j] != '.' {
        let i = choose|i: int|
            0 < i < name.len() && name[i] == '.' && name.subrange(i + 1, name.len() as int)
                == "jsonl"@ && forall|j: int| i < j < name.len() ==> name[j] != '.';
        Some(name.subrange(0, i))
    } else {
        None
    }
}

/// The session id stored in a file called `name`, if it is a session file.
pub fn session_id_from_file_name(name: &str) -> (r: Option<String>)
    ensures
        r matches Some(s) ==> session_id_of_file(name@) == Some(s@),
        r is None ==> session_id_of_file(name@) is None,
{
    let v = chars_of(name);
    let n = v.len();
    proof {
        reveal_strlit("jsonl");
    }
    if n < 7 {
        assert forall|i: int|
            0 < i < n && v@[i] == '.' implies v@.subrange(i + 1, n as int) != "jsonl"@ by {
            assert(v@.subrange(i + 1, n as int).len() != 5);
        }
        return None;
    }
    let i = n - 6;
    let ok = v[i] == '.' && v[i + 1] == 'j' && v[i + 2] == 's' && v[i + 3] == 'o' && v[i + 4]
        == 'n' && v[i + 5] == 'l';
    if ok {
        assert(v@.subrange(i + 1, n as int) =~= "jsonl"@);
        proof {
            let w = choose|k: int|
                0 < k < n && v@[k] == '.' && v@.subrange(k + 1, n as int) == "jsonl"@ && forall|
                    j: int,
                | k < j < n ==> v@[j] != '.';
            assert(v@.subrange(w + 1, n as int).len() == 5);
        }
        Some(string_from_range(v.as_slice(), 0, i))
    } else {
        assert forall|k: int|
            0 < k < n && v@[k] == '.' && v@.subrange(k + 1, n as int) == "jsonl"@ implies false by {
            assert(v@.subrange(k + 1, n as int).len() == 5);
            assert(k == i);
            assert(v@.subrange(k + 1, n as int)[0] == v@[k + 1]);
            assert(v@.subrange(k + 1, n as int)[1] == v@[k + 2]);
            assert(v@.subrange(k + 1, n as int)[2] == v@[k + 3]);
            assert(v@.subrange(k + 1, n as int)[3] == v@[k + 4]);
            assert(v@.subrange(k + 1, n as int)[4] == v@[k + 5]);
        }
        None
    }
}

/// Session persistence: where sessions are stored and whether storing is on.
#[derive(Debug, Clone)]
pub struct SessionPersistenceManager {
    config: SessionPersistenceConfig,
    storage_path: String,
}

impl SessionPersistenceManager {
    /// A manager for the given configuration; sessions go under
    /// `config.storage_path`. The directory itself is created by the caller.
    pub fn new(config: &SessionPersistenceConfig) -> (m: SessionPersistenceManager)
        ensures
            m.enabled() == config.enabled,
            m.storage_path() == config.storage_path@,
    {
        SessionPersistenceManager {
            config: SessionPersistenceConfig {
                enabled: config.enabled,
                storage_path: config.storage_path.clone(),
                auto_save_interval: config.auto_save_interval,
                format: config.format.clone(),
            },
            storage_path: config.storage_path.clone(),
        }
    }

    /// Whether persistence is on.
    pub closed spec fn enabled(&self) -> bool {
        self.config.enabled
    }

    /// The storage directory.
    pub closed spec fn storage_path(&self) -> Seq<char> {
        self.storage_path@
    }

    /// Whether persistence is on.
    pub fn is_enabled(&self) -> (b: bool)
        ensures
            b == self.enabled(),
    {
        self.config.enabled
    }

    /// The storage directory.
    pub fn get_storage_path(&self) -> (p: &str)
        ensures
            p@ == self.storage_path(),
    {
        self.storage_path.as_str()
    }

    /// The file that stores session `session_id`.
    pub fn get_session_file_path(&self, session_id: &str) -> (p: String)
        ensures
            p@ == joined_path(self.storage_path(), session_file_name(session_id@)),
    {
        let file = concat2(session_id, ".jsonl");
        join_path(self.storage_path.as_str(), file.as_str())
    }
}

} // verus!
