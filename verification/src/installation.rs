//! The identity of this installation, which remote control knows it by.

use vstd::prelude::*;

use crate::text::{is_white_space, join, text_view, trim_end, trim_start, trimmed};

verus! {

/// The file that holds the identity.
pub const INSTALLATION_ID_FILE: &'static str = "installation_id";

/// Whether a character is a lower-case hexadecimal digit.
pub open spec fn is_lower_hex(c: char) -> bool {
    '0' <= c <= '9' || 'a' <= c <= 'f'
}

/// Whether a text is a hyphenated UUID of version 7.
pub open spec fn is_uuid_v7(id: Seq<char>) -> bool {
    &&& id.len() == 36
    &&& forall|i: int|
        0 <= i < 36 ==> if i == 8 || i == 13 || i == 18 || i == 23 {
            #[trigger] id[i] == '-'
        } else {
            is_lower_hex(id[i])
        }
    &&& id[14] == '7'
    &&& id[19] == '8' || id[19] == '9' || id[19] == 'a' || id[19] == 'b'
}

/// `uuid::Uuid::now_v7`, in its usual hyphenated form.
///
/// Which UUID it is depends on the clock and on chance; that it has the form of
/// a UUID of version 7 does not.  It panics on a clock that stands before the
/// Unix epoch, and on a system without randomness.
#[verifier::external_body]
fn new_uuid() -> (id: String)
    ensures
        is_uuid_v7(id@),
{
    uuid::Uuid::now_v7().to_string()
}

/// The identity of the installation.
#[derive(Debug)]
pub enum InstallationId {
    /// The stored identity.
    Stored(String),
    /// A new identity, and what to store for it.
    Created { id: String, contents: String },
}

pub enum InstallationIdView {
    Stored(Seq<char>),
    Created { id: Seq<char>, contents: Seq<char> },
}

impl View for InstallationId {
    type V = InstallationIdView;

    open spec fn view(&self) -> InstallationIdView {
        match self {
            InstallationId::Stored(id) => InstallationIdView::Stored(id@),
            InstallationId::Created { id, contents } => InstallationIdView::Created {
                id: id@,
                contents: contents@,
            },
        }
    }
}

/// The identity that the contents of the file hold, if they hold one.
pub open spec fn stored_id(contents: Option<Seq<char>>) -> Option<Seq<char>> {
    match contents {
        Some(contents) => if trimmed(contents).len() > 0 {
            Some(trimmed(contents))
        } else {
            None
        },
        None => None,
    }
}

/// What is stored for an identity.
pub open spec fn contents_for(id: Seq<char>) -> Seq<char> {
    id + "\n"@
}

/// The identity under these contents of the file, where `fresh` is one that
/// may be taken.
pub open spec fn installation_id(
    contents: Option<Seq<char>>,
    fresh: Seq<char>,
) -> InstallationIdView {
    match stored_id(contents) {
        Some(id) => InstallationIdView::Stored(id),
        None => InstallationIdView::Created { id: fresh, contents: contents_for(fresh) },
    }
}

/// Reads the identity that the contents of the file hold, if they hold one.
/// Without a file, or with one that cannot be read, there are no contents.
pub fn read_installation_id(contents: &Option<String>) -> (id: Option<String>)
    ensures
        match id {
            Some(id) => stored_id(text_view(*contents)) == Some(id@),
            None => stored_id(text_view(*contents)) is None,
        },
{
    match contents {
        Some(contents) => {
            let id = contents.as_str().trim();
            if !id.is_empty() {
                Some(id.to_owned())
            } else {
                None
            }
        },
        None => None,
    }
}

/// The identity under these contents of the file, where `fresh` is one that
/// may be taken.
pub fn choose_installation_id(contents: &Option<String>, fresh: String) -> (id: InstallationId)
    ensures
        id@ == installation_id(text_view(*contents), fresh@),
{
    match read_installation_id(contents) {
        Some(id) => InstallationId::Stored(id),
        None => {
            let contents = join(fresh.as_str(), "\n");
            InstallationId::Created { id: fresh, contents }
        },
    }
}

/// The identity of the installation: the stored one, or else a new one.
pub fn load_or_create_installation_id(contents: Option<String>) -> (id: InstallationId)
    ensures
        match stored_id(text_view(contents)) {
            Some(stored) => id@ == InstallationIdView::Stored(stored),
            None => {
                &&& id@ matches InstallationIdView::Created { id: fresh, .. }
                &&& is_uuid_v7(fresh)
                &&& id@ == installation_id(text_view(contents), fresh)
            },
        },
{
    match read_installation_id(&contents) {
        Some(id) => InstallationId::Stored(id),
        None => choose_installation_id(&contents, new_uuid()),
    }
}

/// What is said when the identity cannot be stored, before the cause.
pub open spec fn write_failure_text(path: Seq<char>) -> Seq<char> {
    "failed to write "@ + path
}

/// What is said when the identity cannot be stored, before the cause.
pub fn write_failure(path: &str) -> (text: String)
    ensures
        text@ == "failed to write "@ + path@,
        text@ == write_failure_text(path@),
{
    join("failed to write ", path)
}

/// The identity is stable: one that was created is the one that is loaded from
/// then on, as long as the file holds what was stored.
pub proof fn law_created_id_is_loaded(id: Seq<char>, fresh: Seq<char>)
    requires
        is_uuid_v7(id),
    ensures
        installation_id(Some(contents_for(id)), fresh) == InstallationIdView::Stored(id),
{
    reveal_strlit("\n");
    let contents = contents_for(id);
    assert(is_lower_hex(id[0]));
    assert(contents[0] == id[0]);
    assert(!is_white_space(contents[0]));
    assert(trim_start(contents) == contents);
    assert(contents.last() == '\n');
    assert(contents.drop_last() =~= id);
    assert(is_lower_hex(id[35]));
    assert(trim_end(id) == id);
}

/// A stored identity does not change: whatever new identity is at hand, the
/// same contents give the same identity.
pub proof fn law_stored_id_is_kept(contents: Seq<char>, first: Seq<char>, second: Seq<char>)
    requires
        stored_id(Some(contents)) is Some,
    ensures
        installation_id(Some(contents), first) == installation_id(Some(contents), second),
{
}

/// The identity is what the file holds without the white space around it, where
/// that leaves anything; otherwise it is the new one, which is stored on a line of
/// its own.
pub proof fn law_identity_is_loaded_or_new(contents: Option<Seq<char>>, fresh: Seq<char>)
    ensures
        match installation_id(contents, fresh) {
            InstallationIdView::Stored(id) => {
                &&& contents matches Some(held)
                &&& id == trimmed(held)
                &&& id.len() > 0
            },
            InstallationIdView::Created { id, contents: stored } => {
                &&& contents matches Some(held) ==> trimmed(held).len() == 0
                &&& id == fresh
                &&& stored == fresh.push('\n')
            },
        },
        match stored_id(contents) {
            Some(id) => installation_id(contents, fresh) == InstallationIdView::Stored(id),
            None => installation_id(contents, fresh) is Created,
        },
{
    reveal_strlit("\n");
    assert(contents_for(fresh) =~= fresh.push('\n'));
}

/// Nothing of an identity is lost from view.
pub proof fn law_identity_is_seen_whole(id: InstallationId)
    ensures
        match (id, id@) {
            (InstallationId::Stored(id), InstallationIdView::Stored(i)) => i == id@,
            (
                InstallationId::Created { id, contents },
                InstallationIdView::Created { id: i, contents: c },
            ) => i == id@ && c == contents@,
            _ => false,
        },
{
}

/// An identity that cannot be stored is told with the file.
pub proof fn law_failed_write_names_the_file(path: Seq<char>)
    ensures
        write_failure_text(path) == "failed to write "@ + path,
{
}

} // verus!
