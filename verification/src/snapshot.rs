//! Snapshots of sandboxes, and what is remembered of sandboxes across restarts.

use crate::config::{ConfigModel, SandboxConfig};
use crate::ids::{hyphenated, id_text, is_random_id, parse_id, random_id, uuid_parsed};
use crate::model::SandboxId;
use crate::paths::{below, join_path};
use crate::text::{cat2, clone_opt, opt_view};
use crate::time::{TimeModel, Timestamp};
use vstd::prelude::*;

verus! {

#[derive(Debug, Clone, Copy, PartialEq, Eq, Hash, Structural)]
pub struct SnapshotId(pub u128);

impl SnapshotId {
    /// A new identifier, drawn at random.
    pub fn new() -> (r: Self)
        ensures
            is_random_id(r.0),
    {
        SnapshotId(random_id())
    }

    /// The text of the identifier.
    pub fn text(&self) -> (r: String)
        ensures
            r@ == hyphenated(self.0),
    {
        id_text(self.0)
    }

    /// The identifier that a text stands for. It reads back what `text` wrote.
    pub fn parse(text: &str) -> (r: Result<Self, String>)
        ensures
            match r {
                Ok(id) => uuid_parsed(text@) == Ok::<u128, Seq<char>>(id.0),
                Err(e) => uuid_parsed(text@) == Err::<u128, Seq<char>>(e@),
            },
            forall|id: u128|
                text@ == #[trigger] hyphenated(id) ==> r == Ok::<Self, String>(SnapshotId(id)),
    {
        match parse_id(text) {
            Ok(id) => Ok(SnapshotId(id)),
            Err(e) => Err(e),
        }
    }
}

impl Default for SnapshotId {
    fn default() -> (r: Self)
        ensures
            is_random_id(r.0),
    {
        SnapshotId::new()
    }
}

#[derive(Debug, PartialEq, Eq)]
pub struct SnapshotMetadata {
    pub id: SnapshotId,
    pub sandbox_id: SandboxId,
    pub affinity_name: Option<String>,
    pub template: String,
    pub config: SandboxConfig,
    pub created_at: Timestamp,
    pub note: Option<String>,
}

/// A snapshot as a value.
#[verifier::ext_equal]
pub struct SnapshotModel {
    pub id: SnapshotId,
    pub sandbox_id: SandboxId,
    pub affinity_name: Option<Seq<char>>,
    pub template: Seq<char>,
    pub config: ConfigModel,
    pub created_at: TimeModel,
    pub note: Option<Seq<char>>,
}

impl View for SnapshotMetadata {
    type V = SnapshotModel;

    open spec fn view(&self) -> SnapshotModel {
        SnapshotModel {
            id: self.id,
            sandbox_id: self.sandbox_id,
            affinity_name: opt_view(self.affinity_name),
            template: self.template@,
            config: self.config@,
            created_at: self.created_at@,
            note: opt_view(self.note),
        }
    }
}

impl Clone for SnapshotMetadata {
    fn clone(&self) -> (r: Self)
        ensures
            r@ == self@,
    {
        SnapshotMetadata {
            id: self.id,
            sandbox_id: self.sandbox_id,
            affinity_name: clone_opt(&self.affinity_name),
            template: self.template.clone(),
            config: self.config.clone(),
            created_at: self.created_at,
            note: clone_opt(&self.note),
        }
    }
}

/// What a name stands for: a sandbox that runs, a snapshot to restore, or both.
#[derive(Debug, PartialEq, Eq)]
pub struct AffinityRecord {
    pub name: String,
    pub sandbox_id: Option<SandboxId>,
    pub snapshot_id: Option<SnapshotId>,
    pub updated_at: Timestamp,
}

/// An affinity as a value.
#[verifier::ext_equal]
pub struct AffinityModel {
    pub name: Seq<char>,
    pub sandbox_id: Option<SandboxId>,
    pub snapshot_id: Option<SnapshotId>,
    pub updated_at: TimeModel,
}

impl View for AffinityRecord {
    type V = AffinityModel;

    open spec fn view(&self) -> AffinityModel {
        AffinityModel {
            name: self.name@,
            sandbox_id: self.sandbox_id,
            snapshot_id: self.snapshot_id,
            updated_at: self.updated_at@,
        }
    }
}

impl Clone for AffinityRecord {
    fn clone(&self) -> (r: Self)
        ensures
            r == *self,
    {
        AffinityRecord {
            name: self.name.clone(),
            sandbox_id: self.sandbox_id,
            snapshot_id: self.snapshot_id,
            updated_at: self.updated_at,
        }
    }
}

#[derive(Debug, PartialEq, Eq)]
pub struct ActiveSandboxRecord {
    pub sandbox_id: SandboxId,
    pub config: SandboxConfig,
    pub created_at: Timestamp,
}

/// A sandbox that is remembered across restarts, as a value.
#[verifier::ext_equal]
pub struct ActiveModel {
    pub sandbox_id: SandboxId,
    pub config: ConfigModel,
    pub created_at: TimeModel,
}

impl View for ActiveSandboxRecord {
    type V = ActiveModel;

    open spec fn view(&self) -> ActiveModel {
        ActiveModel {
            sandbox_id: self.sandbox_id,
            config: self.config@,
            created_at: self.created_at@,
        }
    }
}

impl Clone for ActiveSandboxRecord {
    fn clone(&self) -> (r: Self)
        ensures
            r@ == self@,
    {
        ActiveSandboxRecord {
            sandbox_id: self.sandbox_id,
            config: self.config.clone(),
            created_at: self.created_at,
        }
    }
}

/// Where the archives of snapshots are kept.
pub open spec fn archive_root(setting: Option<String>, home: Option<String>, temp_dir: Seq<char>)
 -> Seq<char> {
    match setting {
        Some(dir) => dir@,
        None => match home {
            Some(h) => below(h@, ".hyperbox/snapshots"@),
            None => below(temp_dir, "hyperbox/snapshots"@),
        },
    }
}

pub fn snapshot_root(setting: Option<String>, home: Option<String>, temp_dir: &str) -> (r: String)
    ensures
        r@ == archive_root(setting, home, temp_dir@),
{
    match setting {
        Some(dir) => dir,
        None => match home {
            Some(h) => join_path(h.as_str(), ".hyperbox/snapshots"),
            None => join_path(temp_dir, "hyperbox/snapshots"),
        },
    }
}

/// The file of a snapshot.
pub fn snapshot_artifact_path(root: &str, snapshot_id: SnapshotId) -> (r: String)
    ensures
        r@ == below(root@, hyphenated(snapshot_id.0) + ".tar.gz"@),
{
    let name = cat2(snapshot_id.text().as_str(), ".tar.gz");
    join_path(root, name.as_str())
}

/// Where the records of the server are kept.
pub fn state_db_path(setting: Option<String>, home: Option<String>, temp_dir: &str) -> (r: String)
    ensures
        r@ == match setting {
            Some(path) => path@,
            None => match home {
                Some(h) => below(h@, ".hyperbox/state.db"@),
                None => below(temp_dir@, "hyperbox/state.db"@),
            },
        },
{
    match setting {
        Some(path) => path,
        None => match home {
            Some(h) => join_path(h.as_str(), ".hyperbox/state.db"),
            None => join_path(temp_dir, "hyperbox/state.db"),
        },
    }
}

} // verus!
