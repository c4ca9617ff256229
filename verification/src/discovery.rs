//! The rendezvous between the adapter and the broker in the file system.
//!
//! The broker leaves its port and its token in `~/.rbxmcp/broker.json`. The file
//! is written under another name first and then renamed, so that a reader sees
//! all of it or none of it.
use crate::protocol::BrokerInfo;
use crate::text::same_text;
use std::path::PathBuf;
use vstd::prelude::*;

verus! {

/// `std::path::PathBuf`, carried as an opaque value.
#[verifier::external_type_specification]
#[verifier::external_body]
pub struct ExPathBuf(PathBuf);

/// The components of a path, from the root down.
pub uninterp spec fn path_parts(p: PathBuf) -> Seq<Seq<char>>;

/// Whether the character is a small letter or a dot.
pub open spec fn name_char(c: char) -> bool {
    c == '.' || 'a' <= c <= 'z'
}

/// Whether the text is a plain file name: small letters and dots, and more of
/// them than the names of a directory itself and of its parent have.
pub open spec fn plain_name(s: Seq<char>) -> bool {
    &&& s.len() > 2
    &&& forall|i: int| 0 <= i < s.len() ==> name_char(#[trigger] s[i])
}

/// `PathBuf::join` with a plain name: the path with that one more component.
#[verifier::external_body]
pub(crate) fn join_name(p: &PathBuf, name: &str) -> (r: PathBuf)
    requires
        plain_name(name@),
    ensures
        path_parts(r) == path_parts(*p).push(name@),
{
    p.join(name)
}

/// `dirs::home_dir`: the home directory of the user, as the environment or the
/// system has it, or `None` where neither says. What that is depends on the
/// machine, so nothing is claimed of it.
#[verifier::external_body]
pub(crate) fn home_dir() -> (r: Option<PathBuf>) {
    dirs::home_dir()
}

/// The message where there is no home directory.
pub open spec fn no_home_text() -> Seq<char> {
    "could not determine home directory"@
}

/// The shared state directory below this home directory.
pub fn rbxmcp_dir_in(home: Option<PathBuf>) -> (r: Result<PathBuf, String>)
    ensures
        match home {
            Some(h) => r is Ok && path_parts(r->Ok_0) == path_parts(h).push(".rbxmcp"@),
            None => r is Err && r->Err_0@ == no_home_text(),
        },
{
    proof {
        reveal_strlit(".rbxmcp");
    }
    match home {
        Some(h) => Ok(join_name(&h, ".rbxmcp")),
        None => Err("could not determine home directory".to_string()),
    }
}

/// `~/.rbxmcp`, the shared state directory.
pub fn rbxmcp_dir() -> (r: Result<PathBuf, String>)
    ensures
        match r {
            Ok(p) => path_parts(p).len() > 0 && path_parts(p).last() == ".rbxmcp"@,
            Err(m) => m@ == no_home_text(),
        },
{
    rbxmcp_dir_in(home_dir())
}

/// The rendezvous file in the shared state directory.
pub fn broker_json_in(dir: &PathBuf) -> (r: PathBuf)
    ensures
        path_parts(r) == path_parts(*dir).push("broker.json"@),
{
    proof {
        reveal_strlit("broker.json");
    }
    join_name(dir, "broker.json")
}

/// The rendezvous file below this home directory.
pub fn broker_json_path_in(home: Option<PathBuf>) -> (r: Result<PathBuf, String>)
    ensures
        match home {
            Some(h) => r is Ok && path_parts(r->Ok_0) == path_parts(h).push(".rbxmcp"@).push(
                "broker.json"@,
            ),
            None => r is Err && r->Err_0@ == no_home_text(),
        },
{
    match rbxmcp_dir_in(home) {
        Ok(dir) => Ok(broker_json_in(&dir)),
        Err(m) => Err(m),
    }
}

/// `~/.rbxmcp/broker.json`, the rendezvous file.
pub fn broker_json_path() -> (r: Result<PathBuf, String>)
    ensures
        match r {
            Ok(p) => path_parts(p).len() > 1 && path_parts(p).last() == "broker.json"@
                && path_parts(p).drop_last().last() == ".rbxmcp"@,
            Err(m) => m@ == no_home_text(),
        },
{
    let home = home_dir();
    let ghost dir = path_parts(home->0).push(".rbxmcp"@);
    let r = broker_json_path_in(home);
    assert(dir.push("broker.json"@).drop_last() =~= dir);
    r
}

/// The file that the output of the broker is appended to.
pub fn broker_log_in(dir: &PathBuf) -> (r: PathBuf)
    ensures
        path_parts(r) == path_parts(*dir).push("broker.log"@),
{
    proof {
        reveal_strlit("broker.log");
    }
    join_name(dir, "broker.log")
}

/// Where the rendezvous file is written.
pub struct WritePlan {
    /// The directory, which may have to be created.
    pub dir: PathBuf,
    /// The file that the contents are written to.
    pub tmp: PathBuf,
    /// The rendezvous file, which `tmp` is renamed to.
    pub path: PathBuf,
}

/// The plan for writing the rendezvous file in the shared state directory.
pub fn write_broker_info(dir: PathBuf) -> (r: WritePlan)
    ensures
        r.dir == dir,
        path_parts(r.tmp) == path_parts(dir).push("broker.json.tmp"@),
        path_parts(r.path) == path_parts(dir).push("broker.json"@),
{
    proof {
        reveal_strlit("broker.json.tmp");
    }
    let tmp = join_name(&dir, "broker.json.tmp");
    let path = broker_json_in(&dir);
    WritePlan { dir, tmp, path }
}

/// How far the writing of the rendezvous file has come.
#[derive(Clone, Copy, Debug, PartialEq, Eq, Structural)]
pub enum WriteStage {
    /// The directory is created next, with all above it, unless it is there.
    CreateDir,
    /// The contents are written to `tmp` next.
    WriteAside,
    /// `tmp` is renamed to `path` next.
    Rename,
    /// All is done.
    Written,
    /// A step failed, and nothing is tried any more.
    Failed,
}

/// The stage after the work of a stage, which went well or failed.
pub open spec fn stage_after(stage: WriteStage, ok: bool) -> WriteStage {
    match stage {
        WriteStage::CreateDir if ok => WriteStage::WriteAside,
        WriteStage::WriteAside if ok => WriteStage::Rename,
        WriteStage::Rename if ok => WriteStage::Written,
        WriteStage::Written => WriteStage::Written,
        _ => WriteStage::Failed,
    }
}

/// Computes [`stage_after`].
pub fn next_stage(stage: WriteStage, ok: bool) -> (r: WriteStage)
    ensures
        r == stage_after(stage, ok),
{
    match stage {
        WriteStage::CreateDir if ok => WriteStage::WriteAside,
        WriteStage::WriteAside if ok => WriteStage::Rename,
        WriteStage::Rename if ok => WriteStage::Written,
        WriteStage::Written => WriteStage::Written,
        _ => WriteStage::Failed,
    }
}

/// The files of a disk with their contents, by the components of their paths.
pub type Disk = Map<Seq<Seq<char>>, Seq<u8>>;

/// Whether a disk may look like `now` at some moment of the work of a stage that
/// found it as `was`: creating a directory changes no file, writing a file
/// changes that file alone, and renaming a file happens at one moment.
pub open spec fn may_turn(
    was: Disk,
    stage: WriteStage,
    tmp: Seq<Seq<char>>,
    path: Seq<Seq<char>>,
    now: Disk,
) -> bool {
    match stage {
        WriteStage::WriteAside => now.remove(tmp) == was.remove(tmp),
        WriteStage::Rename => now == was || now == was.remove(tmp).insert(path, was[tmp]),
        _ => now == was,
    }
}

/// Whether the work of a stage has done what it was for, where it went well.
pub open spec fn has_worked(
    was: Disk,
    stage: WriteStage,
    tmp: Seq<Seq<char>>,
    path: Seq<Seq<char>>,
    contents: Seq<u8>,
    now: Disk,
) -> bool {
    match stage {
        WriteStage::WriteAside => now.contains_key(tmp) && now[tmp] == contents,
        WriteStage::Rename => now == was.remove(tmp).insert(path, was[tmp]),
        _ => true,
    }
}

/// Whether the work of a stage, which ended as `ok` says, leaves the disk like
/// `now`. A renaming that fails changes nothing.
pub open spec fn may_end(
    was: Disk,
    stage: WriteStage,
    tmp: Seq<Seq<char>>,
    path: Seq<Seq<char>>,
    contents: Seq<u8>,
    ok: bool,
    now: Disk,
) -> bool {
    &&& may_turn(was, stage, tmp, path, now)
    &&& ok ==> has_worked(was, stage, tmp, path, contents, now)
    &&& !ok && stage == WriteStage::Rename ==> now == was
}

/// Whether the writing, begun on a disk like `start`, may go as `done` says: how
/// the work of each stage ended, and what the disk looked like then.
pub open spec fn may_reach(
    start: Disk,
    tmp: Seq<Seq<char>>,
    path: Seq<Seq<char>>,
    contents: Seq<u8>,
    done: Seq<(bool, Disk)>,
) -> bool
    decreases done.len(),
{
    done.len() > 0 ==> {
        &&& may_reach(start, tmp, path, contents, done.drop_last())
        &&& may_end(
            disk_after(start, done.drop_last()),
            stage_reached(done.drop_last()),
            tmp,
            path,
            contents,
            done.last().0,
            done.last().1,
        )
    }
}

/// The stage after this work.
pub open spec fn stage_reached(done: Seq<(bool, Disk)>) -> WriteStage
    decreases done.len(),
{
    if done.len() == 0 {
        WriteStage::CreateDir
    } else {
        stage_after(stage_reached(done.drop_last()), done.last().0)
    }
}

/// The disk after this work.
pub open spec fn disk_after(start: Disk, done: Seq<(bool, Disk)>) -> Disk {
    if done.len() == 0 {
        start
    } else {
        done.last().1
    }
}

/// What a reader finds in a file, if it is there.
pub open spec fn reading(disk: Disk, path: Seq<Seq<char>>) -> Option<Seq<u8>> {
    if disk.contains_key(path) {
        Some(disk[path])
    } else {
        None
    }
}

/// At every moment of the writing a reader of the rendezvous file finds what was
/// there before or the whole of the new contents: the old where a step failed or
/// is still to come, and the new once all is done.
///
/// It rests on what a file system does in each stage, as [`may_turn`] and
/// [`may_end`] have it.
pub proof fn law_reader_finds_old_or_new(
    dir: PathBuf,
    plan: WritePlan,
    start: Disk,
    contents: Seq<u8>,
    done: Seq<(bool, Disk)>,
    moment: Disk,
)
    requires
        path_parts(plan.tmp) == path_parts(dir).push("broker.json.tmp"@),
        path_parts(plan.path) == path_parts(dir).push("broker.json"@),
        may_reach(start, path_parts(plan.tmp), path_parts(plan.path), contents, done),
        may_turn(
            disk_after(start, done),
            stage_reached(done),
            path_parts(plan.tmp),
            path_parts(plan.path),
            moment,
        ),
    ensures
        reading(disk_after(start, done), path_parts(plan.path)) == (if stage_reached(done)
            == WriteStage::Written {
            Some(contents)
        } else {
            reading(start, path_parts(plan.path))
        }),
        reading(moment, path_parts(plan.path)) == reading(start, path_parts(plan.path)) || reading(
            moment,
            path_parts(plan.path),
        ) == Some(contents),
{
    law_written_aside(dir, plan.tmp, plan.path);
    lemma_writing(start, path_parts(plan.tmp), path_parts(plan.path), contents, done);
    lemma_only_tmp_changes(
        disk_after(start, done),
        moment,
        path_parts(plan.tmp),
        path_parts(plan.path),
    );
}

proof fn lemma_only_tmp_changes(
    was: Disk,
    now: Disk,
    tmp: Seq<Seq<char>>,
    path: Seq<Seq<char>>,
)
    requires
        tmp != path,
    ensures
        now.remove(tmp) == was.remove(tmp) ==> reading(now, path) == reading(was, path),
{
    if now.remove(tmp) == was.remove(tmp) {
        assert(now.remove(tmp).contains_key(path) == now.contains_key(path));
        assert(was.remove(tmp).contains_key(path) == was.contains_key(path));
        if now.contains_key(path) {
            assert(now.remove(tmp)[path] == now[path]);
            assert(was.remove(tmp)[path] == was[path]);
        }
    }
}

proof fn lemma_writing(
    start: Disk,
    tmp: Seq<Seq<char>>,
    path: Seq<Seq<char>>,
    contents: Seq<u8>,
    done: Seq<(bool, Disk)>,
)
    requires
        tmp != path,
        may_reach(start, tmp, path, contents, done),
    ensures
        reading(disk_after(start, done), path) == (if stage_reached(done)
            == WriteStage::Written {
            Some(contents)
        } else {
            reading(start, path)
        }),
        stage_reached(done) == WriteStage::Rename ==> reading(disk_after(start, done), tmp)
            == Some(contents),
    decreases done.len(),
{
    if done.len() > 0 {
        lemma_writing(start, tmp, path, contents, done.drop_last());
        lemma_only_tmp_changes(
            disk_after(start, done.drop_last()),
            disk_after(start, done),
            tmp,
            path,
        );
    }
}

/// The rendezvous file is never written in place: what is written lies beside
/// it, under another name.
pub proof fn law_written_aside(dir: PathBuf, tmp: PathBuf, path: PathBuf)
    requires
        path_parts(tmp) == path_parts(dir).push("broker.json.tmp"@),
        path_parts(path) == path_parts(dir).push("broker.json"@),
    ensures
        path_parts(tmp) != path_parts(path),
        path_parts(tmp).drop_last() == path_parts(path).drop_last(),
{
    reveal_strlit("broker.json.tmp");
    reveal_strlit("broker.json");
    assert(path_parts(tmp).last().len() != path_parts(path).last().len());
    assert(path_parts(tmp).drop_last() =~= path_parts(path).drop_last());
}

/// Whether a broker that shuts down removes the rendezvous file: only where the
/// file still names that broker.
pub fn remove_broker_info_if_owned(found: &Option<BrokerInfo>, broker_uuid: &str) -> (r: bool)
    ensures
        r == (found is Some && found->0.broker_uuid@ == broker_uuid@),
{
    match found {
        Some(info) => same_text(info.broker_uuid.as_str(), broker_uuid),
        None => false,
    }
}

} // verus!
