//! The credential store: where the session token file lives, the exact JSON
//! text written into it, and a model of what a save does to the disk.
//!
//! The store persists a session token under
//! `<home>/.ginger-society/auth.json` as the single JSON object
//! `{"API_TOKEN":"<token>"}`.  The filesystem itself is driven by the caller:
//! this module plans a save (paths and file content, all proved exact) and
//! states, over a small disk model, what a completed save leaves behind.

use vstd::prelude::*;

verus! {

/// Why a save could not be completed.
#[derive(Clone, Debug, PartialEq)]
pub enum StoreError {
    /// No home directory is resolvable for the current user.
    HomeDirectoryUnresolved,
    /// The credential directory could not be created.
    DirectoryCreateFailed { path: String, cause: String },
    /// The credential file could not be created or written.
    FileWriteFailed { path: String, cause: String },
}

/// Mathematical image of a [`StoreError`].
pub enum StoreErrorModel {
    HomeDirectoryUnresolved,
    DirectoryCreateFailed { path: Seq<char>, cause: Seq<char> },
    FileWriteFailed { path: Seq<char>, cause: Seq<char> },
}

impl DeepView for StoreError {
    type V = StoreErrorModel;

    open spec fn deep_view(&self) -> StoreErrorModel {
        match self {
            StoreError::HomeDirectoryUnresolved => StoreErrorModel::HomeDirectoryUnresolved,
            StoreError::DirectoryCreateFailed { path, cause } => {
                StoreErrorModel::DirectoryCreateFailed { path: path@, cause: cause@ }
            },
            StoreError::FileWriteFailed { path, cause } => {
                StoreErrorModel::FileWriteFailed { path: path@, cause: cause@ }
            },
        }
    }
}

/// The line reported when a save fails, naming the path touched and the
/// underlying cause.
pub open spec fn store_error_message_spec(e: StoreErrorModel) -> Seq<char> {
    match e {
        StoreErrorModel::HomeDirectoryUnresolved => "Failed to locate home directory. Exiting."@,
        StoreErrorModel::DirectoryCreateFailed { path, cause } => "Failed to create directory "@
            + path + ": "@ + cause + ". Exiting."@,
        StoreErrorModel::FileWriteFailed { path, cause } => "Failed to write to file "@ + path
            + ": "@ + cause + ". Exiting."@,
    }
}

impl StoreError {
    /// Render the line reported for this save failure.
    pub fn message(&self) -> (r: String)
        ensures
            r@ == store_error_message_spec(self.deep_view()),
    {
        match self {
            StoreError::HomeDirectoryUnresolved => {
                String::from_str("Failed to locate home directory. Exiting.")
            },
            StoreError::DirectoryCreateFailed { path, cause } => {
                let mut t = String::from_str("Failed to create directory ");
                t.append(path.as_str());
                t.append(": ");
                t.append(cause.as_str());
                t.append(". Exiting.");
                t
            },
            StoreError::FileWriteFailed { path, cause } => {
                let mut t = String::from_str("Failed to write to file ");
                t.append(path.as_str());
                t.append(": ");
                t.append(cause.as_str());
                t.append(". Exiting.");
                t
            },
        }
    }
}

/// The directory that holds the credential file, under the given home
/// directory.
pub open spec fn auth_dir_spec(home: Seq<char>) -> Seq<char> {
    home + "/.ginger-society"@
}

/// The credential file's path, under the given home directory.
pub open spec fn auth_file_spec(home: Seq<char>) -> Seq<char> {
    auth_dir_spec(home) + "/auth.json"@
}

/// The two-character escape for the characters JSON cannot hold verbatim.
pub open spec fn hex_digit_spec(n: int) -> char {
    if n == 0 { '0' } else if n == 1 { '1' } else if n == 2 { '2' } else if n == 3 { '3' }
    else if n == 4 { '4' } else if n == 5 { '5' } else if n == 6 { '6' } else if n == 7 { '7' }
    else if n == 8 { '8' } else if n == 9 { '9' } else if n == 10 { 'a' } else if n == 11 { 'b' }
    else if n == 12 { 'c' } else if n == 13 { 'd' } else if n == 14 { 'e' } else { 'f' }
}

/// How one character appears inside a JSON string literal: quote and
/// backslash are escaped, the common control characters take their short
/// escapes, the remaining control characters take a `\u00XX` escape with
/// lowercase hex digits, and every other character stands as itself.
pub open spec fn json_escape_char_spec(c: char) -> Seq<char> {
    if c == '"' { seq!['\\', '"'] }
    else if c == '\\' { seq!['\\', '\\'] }
    else if c == '\u{8}' { seq!['\\', 'b'] }
    else if c == '\t' { seq!['\\', 't'] }
    else if c == '\n' { seq!['\\', 'n'] }
    else if c == '\u{c}' { seq!['\\', 'f'] }
    else if c == '\r' { seq!['\\', 'r'] }
    else if (c as u32) < 0x20 {
        seq!['\\', 'u', '0', '0', hex_digit_spec((c as u32) as int / 16), hex_digit_spec(
            (c as u32) as int % 16,
        )]
    } else { seq![c] }
}

/// A whole string escaped for use inside a JSON string literal.
pub open spec fn json_escape_spec(s: Seq<char>) -> Seq<char>
    decreases s.len(),
{
    if s.len() == 0 {
        Seq::empty()
    } else {
        json_escape_spec(s.drop_last()) + json_escape_char_spec(s.last())
    }
}

/// The exact bytes-as-text of the credential file for a given token:
/// `{"API_TOKEN":"<escaped token>"}`.
pub open spec fn credential_content_spec(token: Seq<char>) -> Seq<char> {
    "{\"API_TOKEN\":\""@ + json_escape_spec(token) + "\"}"@
}

/// A save that is ready to be carried out: the directory to ensure, the file
/// to write, and the full text to write into it.
#[derive(Clone, Debug, PartialEq)]
pub struct SavePlan {
    pub dir_path: String,
    pub file_path: String,
    pub content: String,
}

/// What it means for a plan to be the save of `token` under `home`.
pub open spec fn plan_is_for(plan: SavePlan, home: Seq<char>, token: Seq<char>) -> bool {
    &&& plan.dir_path@ == auth_dir_spec(home)
    &&& plan.file_path@ == auth_file_spec(home)
    &&& plan.content@ == credential_content_spec(token)
}

/// Appends one character to a string.
///
/// Relies on `String::push` of std: it appends the given character to the
/// end of the string.
pub assume_specification[ String::push ](s: &mut String, ch: char)
    ensures
        final(s)@ == old(s)@.push(ch),
;

/// The hexadecimal digit for a value below sixteen, lowercase.
fn hex_digit(n: u32) -> (c: char)
    requires
        n < 16,
    ensures
        c == hex_digit_spec(n as int),
{
    match n {
        0 => '0', 1 => '1', 2 => '2', 3 => '3',
        4 => '4', 5 => '5', 6 => '6', 7 => '7',
        8 => '8', 9 => '9', 10 => 'a', 11 => 'b',
        12 => 'c', 13 => 'd', 14 => 'e', _ => 'f',
    }
}

/// Appends the JSON-escaped form of one character.
fn push_escaped(out: &mut String, c: char)
    ensures
        final(out)@ == old(out)@ + json_escape_char_spec(c),
{
    if c == '"' {
        out.append("\\\"");
        proof {
            reveal_strlit("\\\"");
            assert(out@ =~= old(out)@ + json_escape_char_spec(c));
        }
    } else if c == '\\' {
        out.append("\\\\");
        proof {
            reveal_strlit("\\\\");
            assert(out@ =~= old(out)@ + json_escape_char_spec(c));
        }
    } else if c == '\u{8}' {
        out.append("\\b");
        proof {
            reveal_strlit("\\b");
            assert(out@ =~= old(out)@ + json_escape_char_spec(c));
        }
    } else if c == '\t' {
        out.append("\\t");
        proof {
            reveal_strlit("\\t");
            assert(out@ =~= old(out)@ + json_escape_char_spec(c));
        }
    } else if c == '\n' {
        out.append("\\n");
        proof {
            reveal_strlit("\\n");
            assert(out@ =~= old(out)@ + json_escape_char_spec(c));
        }
    } else if c == '\u{c}' {
        out.append("\\f");
        proof {
            reveal_strlit("\\f");
            assert(out@ =~= old(out)@ + json_escape_char_spec(c));
        }
    } else if c == '\r' {
        out.append("\\r");
        proof {
            reveal_strlit("\\r");
            assert(out@ =~= old(out)@ + json_escape_char_spec(c));
        }
    } else if (c as u32) < 0x20 {
        let code: u32 = c as u32;
        out.append("\\u00");
        out.push(hex_digit(code / 16));
        out.push(hex_digit(code % 16));
        proof {
            reveal_strlit("\\u00");
            assert(out@ =~= old(out)@ + json_escape_char_spec(c));
        }
    } else {
        out.push(c);
        proof {
            assert(out@ =~= old(out)@ + json_escape_char_spec(c));
        }
    }
}

/// Escapes a whole string for use inside a JSON string literal.
pub fn json_escape(s: &str) -> (r: String)
    ensures
        r@ == json_escape_spec(s@),
{
    let mut out = String::new();
    let n: usize = s.unicode_len();
    let mut i: usize = 0;
    while i < n
        invariant
            n == s@.len(),
            i <= n,
            out@ == json_escape_spec(s@.subrange(0, i as int)),
        decreases n - i,
    {
        let c = s.get_char(i);
        push_escaped(&mut out, c);
        proof {
            assert(s@.subrange(0, i + 1 as int).drop_last() =~= s@.subrange(0, i as int));
            assert(s@.subrange(0, i + 1 as int).last() == c);
        }
        i = i + 1;
    }
    proof {
        assert(s@.subrange(0, n as int) =~= s@);
    }
    out
}

/// Builds the exact credential file text for a token.
pub fn credential_file_content(token: &str) -> (r: String)
    ensures
        r@ == credential_content_spec(token@),
{
    let mut out = String::from_str("{\"API_TOKEN\":\"");
    let escaped = json_escape(token);
    out.append(escaped.as_str());
    out.append("\"}");
    proof {
        assert(out@ =~= credential_content_spec(token@));
    }
    out
}

/// Builds the credential directory path under a home directory.
pub fn auth_dir_path(home: &str) -> (r: String)
    ensures
        r@ == auth_dir_spec(home@),
{
    let mut out = String::from_str(home);
    out.append("/.ginger-society");
    out
}

/// Builds the credential file path under a home directory.
pub fn auth_file_path(home: &str) -> (r: String)
    ensures
        r@ == auth_file_spec(home@),
{
    let mut out = auth_dir_path(home);
    out.append("/auth.json");
    proof {
        assert(out@ =~= auth_file_spec(home@));
    }
    out
}

/// Plans the save of a token given whatever home directory was resolved.
///
/// With no home directory the save is refused before any path or content is
/// produced, so nothing downstream can touch the filesystem.
pub fn plan_save(home: Option<&str>, token: &str) -> (r: Result<SavePlan, StoreError>)
    ensures
        match r {
            Ok(plan) => home matches Some(h) && plan_is_for(plan, h@, token@),
            Err(e) => home is None && e.deep_view() is HomeDirectoryUnresolved,
        },
{
    match home {
        Some(h) => Ok(
            SavePlan {
                dir_path: auth_dir_path(h),
                file_path: auth_file_path(h),
                content: credential_file_content(token),
            },
        ),
        None => Err(StoreError::HomeDirectoryUnresolved),
    }
}

/// Resolves the current user's home directory as text.
///
/// Relies on `dirs::home_dir`: it returns the platform's home directory for
/// the current user, or nothing when none is known.  The answer depends on
/// the environment, so nothing is promised of it; a home directory whose
/// path is not valid text counts as unresolved.
#[verifier::external_body]
fn home_dir_string() -> (r: Option<String>) {
    dirs::home_dir().and_then(|p| p.to_str().map(|s| s.to_string()))
}

/// Plans the save of a token under the current user's home directory.
///
/// Whatever the environment answers, the result is either a plan for the
/// save of this token under some home directory, or exactly
/// [`StoreError::HomeDirectoryUnresolved`].
pub fn prepare_save(token: &str) -> (r: Result<SavePlan, StoreError>)
    ensures
        match r {
            Ok(plan) => exists|home: Seq<char>| plan_is_for(plan, home, token@),
            Err(e) => e.deep_view() is HomeDirectoryUnresolved,
        },
{
    let home = home_dir_string();
    match home {
        Some(h) => plan_save(Some(h.as_str()), token),
        None => plan_save(None, token),
    }
}

/// A disk, as far as the store is concerned: which directories exist and
/// what text each file holds.
pub struct DiskModel {
    pub dirs: Set<Seq<char>>,
    pub files: Map<Seq<char>, Seq<char>>,
}

/// What a completed save of `token` under `home` leaves on the disk: the
/// credential directory exists, and the credential file holds exactly the
/// new content, whatever it held before.
pub open spec fn save_effect(d: DiskModel, home: Seq<char>, token: Seq<char>) -> DiskModel {
    DiskModel {
        dirs: d.dirs.insert(auth_dir_spec(home)),
        files: d.files.insert(auth_file_spec(home), credential_content_spec(token)),
    }
}

/// Saving twice overwrites: after `save(t1)` then `save(t2)` the credential
/// file holds exactly the content for `t2` — never a merge of both — and the
/// disk is the one a single `save(t2)` would have left.
pub proof fn lemma_save_overwrites(d: DiskModel, home: Seq<char>, t1: Seq<char>, t2: Seq<char>)
    ensures
        save_effect(save_effect(d, home, t1), home, t2).files[auth_file_spec(home)]
            == credential_content_spec(t2),
        save_effect(save_effect(d, home, t1), home, t2).files =~= save_effect(d, home, t2).files,
{
}

/// Directory creation is idempotent: one save makes the credential directory
/// exist whether or not it was there, and a second save leaves the set of
/// directories exactly as the first left it.
pub proof fn lemma_save_directory_idempotent(
    d: DiskModel,
    home: Seq<char>,
    t1: Seq<char>,
    t2: Seq<char>,
)
    ensures
        save_effect(d, home, t1).dirs.contains(auth_dir_spec(home)),
        save_effect(save_effect(d, home, t1), home, t2).dirs =~= save_effect(d, home, t1).dirs,
{
}

} // verus!
