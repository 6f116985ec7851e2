//! Directories in which read-only commands may write.
use vstd::prelude::*;

use crate::text::characters;

verus! {

/// The environment variable that tells a command where its directory is.
pub const READ_ONLY_SCRATCH_DIR_ENV_VAR: &'static str = "CODEX_READ_ONLY_SCRATCH_DIR";

/// Where directories are made, and how much may be written to one.
#[derive(Debug, Clone, PartialEq, Eq)]
pub struct ReadOnlyScratchConfig {
    pub root: String,
    pub max_bytes: u64,
    pub max_files: u64,
}

/// What a directory is made for.
#[derive(Debug, Clone, PartialEq, Eq)]
pub struct ReadOnlyScratchScope {
    pub caller_id: String,
    pub thread_id: String,
    pub request_id: String,
    pub exec_id: String,
}

/// Makes directories under one root.
#[derive(Debug, Clone)]
pub struct ReadOnlyScratchManager {
    config: ReadOnlyScratchConfig,
}

/// A directory, and how much may be written to it.
#[derive(Debug)]
pub struct ReadOnlyScratch {
    root: String,
    dir_name: String,
    max_bytes: u64,
    max_files: u64,
}

/// Whether a character stands in the name of a directory as it is.
pub open spec fn plain(c: char) -> bool {
    'a' <= c <= 'z' || 'A' <= c <= 'Z' || '0' <= c <= '9' || c == '-' || c == '_'
}

/// A text as a part of the name of a directory: other characters become underscores, and so
/// does an empty text.
pub open spec fn segment(value: Seq<char>) -> Seq<char> {
    if value.len() == 0 {
        seq!['_']
    } else {
        value.map_values(
            |c: char|
                if plain(c) {
                    c
                } else {
                    '_'
                },
        )
    }
}

/// The name of the directory for a scope.
pub open spec fn scope_name(
    caller_id: Seq<char>,
    thread_id: Seq<char>,
    request_id: Seq<char>,
    exec_id: Seq<char>,
) -> Seq<char> {
    segment(caller_id) + "__"@ + segment(thread_id) + "__"@ + segment(request_id) + "__"@ + segment(
        exec_id,
    )
}

/// Whether a text is the name of a directory right under another one: it is not empty, and
/// holds nothing that leads elsewhere.
pub open spec fn stays_inside(name: Seq<char>) -> bool {
    name.len() > 0 && forall|i: int| 0 <= i < name.len() ==> plain(#[trigger] name[i])
}

/// Whatever a scope is made of, its directory stands right under the root.
pub proof fn scopes_stay_inside(
    caller_id: Seq<char>,
    thread_id: Seq<char>,
    request_id: Seq<char>,
    exec_id: Seq<char>,
)
    ensures
        stays_inside(scope_name(caller_id, thread_id, request_id, exec_id)),
        !scope_name(caller_id, thread_id, request_id, exec_id).contains('/'),
        !scope_name(caller_id, thread_id, request_id, exec_id).contains('.'),
{
    reveal_strlit("__");
    let name = scope_name(caller_id, thread_id, request_id, exec_id);
    assert(stays_inside(segment(caller_id)));
    assert(stays_inside(segment(thread_id)));
    assert(stays_inside(segment(request_id)));
    assert(stays_inside(segment(exec_id)));
    assert(stays_inside(name));
    assert(!plain('/') && !plain('.'));
}

/// A text that is made of letters, digits, hyphens and underscores is a part of a name as it
/// is; of any other, each other character is replaced by an underscore, and the rest stays in
/// its place. An empty text becomes an underscore.
pub proof fn segments_keep_what_they_can(value: Seq<char>, i: int)
    ensures
        value.len() == 0 ==> segment(value).len() == 1 && segment(value)[0] == '_',
        value.len() > 0 ==> segment(value).len() == value.len(),
        0 <= i < value.len() ==> {
            let c = value[i];
            let kept = 'a' <= c <= 'z' || 'A' <= c <= 'Z' || '0' <= c <= '9' || c == '-' || c
                == '_';
            segment(value)[i] == if kept {
                c
            } else {
                '_'
            }
        },
        segment(segment(value)) == segment(value),
{
    assert(segment(segment(value)) =~= segment(value));
}

/// The name of a directory holds the caller, the thread, the request and the execution, in that
/// order, with two underscores between them.
pub proof fn names_hold_the_scope(
    caller_id: Seq<char>,
    thread_id: Seq<char>,
    request_id: Seq<char>,
    exec_id: Seq<char>,
)
    ensures
        ({
            let name = scope_name(caller_id, thread_id, request_id, exec_id);
            let a = segment(caller_id).len() as int;
            let b = a + 2 + segment(thread_id).len();
            let c = b + 2 + segment(request_id).len();
            let d = c + 2 + segment(exec_id).len();
            &&& name.len() == d
            &&& name.subrange(0, a) == segment(caller_id)
            &&& name.subrange(a + 2, b) == segment(thread_id)
            &&& name.subrange(b + 2, c) == segment(request_id)
            &&& name.subrange(c + 2, d) == segment(exec_id)
            &&& name[a] == '_' && name[a + 1] == '_'
            &&& name[b] == '_' && name[b + 1] == '_'
            &&& name[c] == '_' && name[c + 1] == '_'
        }),
{
    reveal_strlit("__");
    let name = scope_name(caller_id, thread_id, request_id, exec_id);
    let a = segment(caller_id).len() as int;
    let b = a + 2 + segment(thread_id).len();
    let c = b + 2 + segment(request_id).len();
    let d = c + 2 + segment(exec_id).len();
    assert(name.subrange(0, a) =~= segment(caller_id));
    assert(name.subrange(a + 2, b) =~= segment(thread_id));
    assert(name.subrange(b + 2, c) =~= segment(request_id));
    assert(name.subrange(c + 2, d) =~= segment(exec_id));
}

impl ReadOnlyScratchManager {
    /// Where directories are made, and how much may be written to one.
    pub closed spec fn settings(&self) -> ReadOnlyScratchConfig {
        self.config
    }

    /// A manager with these settings.
    pub fn new(config: ReadOnlyScratchConfig) -> (r: Self)
        ensures
            r.settings() == config,
    {
        ReadOnlyScratchManager { config }
    }

    /// The directory for a scope.
    pub fn create(&self, scope: ReadOnlyScratchScope) -> (r: ReadOnlyScratch)
        ensures
            r.location() == (
                self.settings().root@,
                scope_name(scope.caller_id@, scope.thread_id@, scope.request_id@, scope.exec_id@),
            ),
            r.bytes_allowed() == self.settings().max_bytes,
            r.files_allowed() == self.settings().max_files,
    {
        let mut dir_name = sanitize_path_segment(&scope.caller_id);
        dir_name.append("__");
        dir_name.append(sanitize_path_segment(&scope.thread_id).as_str());
        dir_name.append("__");
        dir_name.append(sanitize_path_segment(&scope.request_id).as_str());
        dir_name.append("__");
        dir_name.append(sanitize_path_segment(&scope.exec_id).as_str());
        ReadOnlyScratch {
            root: self.config.root.clone(),
            dir_name,
            max_bytes: self.config.max_bytes,
            max_files: self.config.max_files,
        }
    }
}

impl ReadOnlyScratch {
    /// The root, and the name of the directory in it.
    pub closed spec fn location(&self) -> (Seq<char>, Seq<char>) {
        (self.root@, self.dir_name@)
    }

    /// How many bytes may be written.
    pub closed spec fn bytes_allowed(&self) -> u64 {
        self.max_bytes
    }

    /// How many files may be written.
    pub closed spec fn files_allowed(&self) -> u64 {
        self.max_files
    }

    /// The root, and the name of the directory in it.
    pub fn path(&self) -> (r: (String, String))
        ensures
            (r.0@, r.1@) == self.location(),
    {
        (self.root.clone(), self.dir_name.clone())
    }

    /// How many bytes may be written.
    pub fn max_bytes(&self) -> (r: u64)
        ensures
            r == self.bytes_allowed(),
    {
        self.max_bytes
    }

    /// How many files may be written.
    pub fn max_files(&self) -> (r: u64)
        ensures
            r == self.files_allowed(),
    {
        self.max_files
    }
}

/// Whether a character stands in the name of a directory as it is.
fn is_plain(c: char) -> (r: bool)
    ensures
        r == plain(c),
{
    match c {
        'a'..='z' | 'A'..='Z' | '0'..='9' | '-' | '_' => true,
        _ => false,
    }
}

/// A text as a part of the name of a directory.
pub fn sanitize_path_segment(value: &String) -> (r: String)
    ensures
        r@ == segment(value@),
{
    proof {
        reveal_strlit("_");
    }
    assert("_"@ =~= seq!['_']);
    let given = characters(value.as_str());
    let count: usize = given.len();
    if count == 0 {
        return "_".to_owned();
    }
    let mut sanitized = String::new();
    for i in 0..count
        invariant
            given@ == value@,
            count == given@.len(),
            count > 0,
            "_"@ == seq!['_'],
            sanitized@ == segment(value@).take(i as int),
    {
        if is_plain(given[i]) {
            sanitized.append(value.as_str().substring_char(i, i + 1));
        } else {
            sanitized.append("_");
        }
        assert(sanitized@ =~= segment(value@).take(i + 1));
    }
    assert(segment(value@).take(count as int) =~= segment(value@));
    sanitized
}

} // verus!
