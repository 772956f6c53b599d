//! Backups of the configuration file: how a backup file is named, and what a
//! file in the backups directory tells about the backup it holds.

use vstd::prelude::*;
use crate::error::{joined, SynapticError};
use crate::outside::now_formatted;
use crate::text::{chars_of, same_chars, string_of};

verus! {

/// What is known of one backup.
#[derive(Debug, Clone)]
pub struct BackupInfo {
    /// The backup's identifier: its file's name without `.json`.
    pub id: String,
    /// The name of the backup's file.
    pub filename: String,
    /// Time of creation, as RFC 3339 text.
    pub created_at: String,
    /// Size of the file in bytes.
    pub size_bytes: u64,
}

/// `name` holds no `.` from index `from` on.
pub open spec fn dot_free_from(name: Seq<char>, from: int) -> bool {
    forall|i: int| from <= i < name.len() ==> name[i] != '.'
}

/// Index of the last `.` in `name`, or -1 where there is none.
pub open spec fn last_dot(name: Seq<char>) -> int
    decreases name.len(),
{
    if name.len() == 0 {
        -1
    } else if name.last() == '.' {
        name.len() - 1
    } else {
        last_dot(name.drop_last())
    }
}

/// The extension of a file name: what follows its last `.`, unless that `.`
/// opens the name.
pub open spec fn extension_of(name: Seq<char>) -> Option<Seq<char>> {
    if last_dot(name) <= 0 {
        None
    } else {
        Some(name.skip(last_dot(name) + 1))
    }
}

/// The stem of a file name: what precedes its last `.`, or the whole name
/// where that `.` opens the name or is missing.
pub open spec fn stem_of(name: Seq<char>) -> Seq<char> {
    if last_dot(name) <= 0 {
        name
    } else {
        name.take(last_dot(name))
    }
}

/// The last `.` is a `.` with none behind it.
pub proof fn lemma_last_dot(name: Seq<char>)
    ensures
        -1 <= last_dot(name) < name.len(),
        last_dot(name) >= 0 ==> name[last_dot(name)] == '.',
        dot_free_from(name, last_dot(name) + 1),
    decreases name.len(),
{
    if name.len() > 0 && name.last() != '.' {
        lemma_last_dot(name.drop_last());
        let k = last_dot(name.drop_last());
        assert forall|i: int| k + 1 <= i < name.len() implies name[i] != '.' by {
            if i < name.len() - 1 {
                assert(name.drop_last()[i] == name[i]);
            }
        }
    }
}

/// An index with a `.` (or -1) and no `.` behind it is the last `.`.
pub proof fn lemma_last_dot_unique(name: Seq<char>, at: int)
    requires
        -1 <= at < name.len(),
        at >= 0 ==> name[at] == '.',
        dot_free_from(name, at + 1),
    ensures
        last_dot(name) == at,
    decreases name.len(),
{
    if name.len() > 0 {
        if name.last() == '.' {
            assert(at == name.len() - 1);
        } else {
            let front = name.drop_last();
            assert(dot_free_from(front, at + 1)) by {
                assert forall|i: int| at + 1 <= i < front.len() implies front[i] != '.' by {
                    assert(front[i] == name[i]);
                }
            }
            if at >= 0 {
                assert(front[at] == name[at]);
            }
            lemma_last_dot_unique(front, at);
        }
    }
}

/// Index of the last `.` in `chars`, if there is one.
pub fn find_last_dot(chars: &Vec<char>) -> (found: Option<usize>)
    ensures
        match found {
            Some(at) => at == last_dot(chars@) && at < chars.len(),
            None => last_dot(chars@) == -1,
        },
{
    let mut i: usize = chars.len();
    while i > 0
        invariant
            i <= chars@.len(),
            dot_free_from(chars@, i as int),
        decreases i,
    {
        if chars[i - 1] == '.' {
            proof {
                lemma_last_dot_unique(chars@, i - 1);
            }
            return Some(i - 1);
        }
        i -= 1;
    }
    proof {
        lemma_last_dot_unique(chars@, -1);
    }
    None
}

/// The name of the file that holds the backup `id`: the id followed by
/// `.json`.
pub fn backup_filename(id: &str) -> (filename: String)
    ensures
        filename@ == id@ + ".json"@,
{
    joined(id, ".json")
}

/// The name of the file for a backup that is made now: the current time as
/// year, month, day, hour, minute and second, followed by `.json`. The file
/// tells its stamp again: its extension is `json` and its stem is the stamp.
pub fn new_backup_filename() -> (filename: String)
    ensures
        ".json"@.is_suffix_of(filename@),
        extension_of(filename@) == Some("json"@),
        stem_of(filename@).len() >= 19,
        filename@ == stem_of(filename@) + ".json"@,
{
    let stamp = now_formatted("%Y-%m-%dT%H-%M-%S");
    let filename = backup_filename(stamp.as_str());
    proof {
        lemma_backup_name_round_trip(stamp@);
        assert((stamp@ + ".json"@).subrange(stamp@.len() as int, (stamp@ + ".json"@).len() as int)
            =~= ".json"@);
    }
    filename
}

/// The error for a backup that is not there.
pub fn backup_missing(id: &str) -> (error: SynapticError)
    ensures
        error matches SynapticError::BackupError(detail) && detail@ == "Backup not found: "@ + id@,
{
    SynapticError::BackupError(joined("Backup not found: ", id))
}

/// What a file of the backups directory tells: a file whose extension is
/// `json` holds the backup named by its stem; any other file holds none. A
/// file whose size is not known counts as empty.
pub fn backup_from_entry(filename: &str, size: Option<u64>, created_at: String) -> (backup: Option<
    BackupInfo,
>)
    ensures
        match backup {
            Some(info) => {
                &&& extension_of(filename@) == Some("json"@)
                &&& info.id@ == stem_of(filename@)
                &&& info.filename@ == filename@
                &&& info.created_at == created_at
                &&& info.size_bytes == match size {
                    Some(n) => n,
                    None => 0,
                }
            },
            None => extension_of(filename@) != Some("json"@),
        },
{
    let chars = chars_of(filename);
    match find_last_dot(&chars) {
        Some(at) => {
            if at == 0 {
                return None;
            }
            let mut extension: Vec<char> = Vec::new();
            let mut i: usize = at + 1;
            while i < chars.len()
                invariant
                    at < i <= chars@.len(),
                    extension@ == chars@.subrange(at + 1, i as int),
                decreases chars@.len() - i,
            {
                extension.push(chars[i]);
                i += 1;
            }
            assert(extension@ =~= chars@.skip(at + 1));
            if same_chars(&extension, "json") {
                let id = string_of(&chars, 0, at);
                assert(chars@.subrange(0, at as int) =~= chars@.take(at as int));
                Some(
                    BackupInfo {
                        id,
                        filename: filename.to_owned(),
                        created_at,
                        size_bytes: match size {
                            Some(n) => n,
                            None => 0,
                        },
                    },
                )
            } else {
                None
            }
        },
        None => None,
    }
}

/// A backup's file tells the backup's id again, provided the id is not empty.
pub proof fn lemma_backup_name_round_trip(id: Seq<char>)
    requires
        id.len() > 0,
    ensures
        extension_of(id + ".json"@) == Some(".json"@.skip(1)),
        ".json"@.skip(1) == "json"@,
        stem_of(id + ".json"@) == id,
{
    reveal_strlit(".json");
    reveal_strlit("json");
    let name = id + ".json"@;
    let at = id.len() as int;
    assert(name[at] == '.');
    assert(dot_free_from(name, at + 1));
    lemma_last_dot_unique(name, at);
    assert(name.skip(at + 1) =~= ".json"@.skip(1));
    assert(".json"@.skip(1) =~= "json"@);
    assert(name.take(at) =~= id);
}

} // verus!
