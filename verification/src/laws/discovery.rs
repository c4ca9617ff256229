//! What the rendezvous in the file system does.
use crate::discovery::{
    broker_json_in, broker_json_path, broker_json_path_in, broker_log_in, next_stage, path_parts,
    rbxmcp_dir, rbxmcp_dir_in, remove_broker_info_if_owned, write_broker_info, WritePlan,
    WriteStage,
};
use crate::protocol::BrokerInfo;
use std::path::PathBuf;
use vstd::prelude::*;

verus! {

/// The shared directory is `.rbxmcp` in the home directory, and the rendezvous
/// file is `broker.json` in that. Without a home directory there is neither.
pub proof fn law_paths_below_home(
    home: Option<PathBuf>,
    dir: Result<PathBuf, String>,
    file: Result<PathBuf, String>,
)
    requires
        call_ensures(rbxmcp_dir_in, (home,), dir),
        call_ensures(broker_json_path_in, (home,), file),
    ensures
        home is Some <==> dir is Ok,
        home is Some <==> file is Ok,
        home is Some ==> path_parts(dir->Ok_0) == path_parts(home->0) + seq![".rbxmcp"@],
        home is Some ==> path_parts(file->Ok_0) == path_parts(home->0) + seq![
            ".rbxmcp"@,
            "broker.json"@,
        ],
        home is None ==> dir->Err_0@ == "could not determine home directory"@,
        home is None ==> file->Err_0@ == "could not determine home directory"@,
{
    if home is Some {
        assert(path_parts(dir->Ok_0) =~= path_parts(home->0) + seq![".rbxmcp"@]);
        assert(path_parts(file->Ok_0) =~= path_parts(home->0) + seq![
            ".rbxmcp"@,
            "broker.json"@,
        ]);
    }
}

/// Whatever the home directory is, the shared directory and the rendezvous file
/// have their names.
pub proof fn law_paths_have_their_names(
    dir: Result<PathBuf, String>,
    file: Result<PathBuf, String>,
)
    requires
        call_ensures(rbxmcp_dir, (), dir),
        call_ensures(broker_json_path, (), file),
    ensures
        dir is Ok ==> path_parts(dir->Ok_0).len() >= 1 && path_parts(dir->Ok_0).last()
            == ".rbxmcp"@,
        file is Ok ==> path_parts(file->Ok_0).len() >= 2 && path_parts(file->Ok_0).last()
            == "broker.json"@,
        dir is Err ==> dir->Err_0@ == "could not determine home directory"@,
        file is Err ==> file->Err_0@ == "could not determine home directory"@,
{
}

/// The files of the broker lie in the directory, each under its own name.
pub proof fn law_files_in_directory(
    dir: PathBuf,
    json: PathBuf,
    log: PathBuf,
    plan: WritePlan,
)
    requires
        call_ensures(broker_json_in, (&dir,), json),
        call_ensures(broker_log_in, (&dir,), log),
        call_ensures(write_broker_info, (dir,), plan),
    ensures
        path_parts(json) == path_parts(dir) + seq!["broker.json"@],
        path_parts(log) == path_parts(dir) + seq!["broker.log"@],
        plan.dir == dir,
        path_parts(plan.path) == path_parts(json),
        path_parts(plan.tmp) == path_parts(dir) + seq!["broker.json.tmp"@],
{
    assert(path_parts(json) =~= path_parts(dir) + seq!["broker.json"@]);
    assert(path_parts(log) =~= path_parts(dir) + seq!["broker.log"@]);
    assert(path_parts(plan.tmp) =~= path_parts(dir) + seq!["broker.json.tmp"@]);
}

/// The file is written aside before it is renamed and after the directory is
/// there, all is done after three steps that went well, and a step that failed
/// is the last.
pub proof fn law_writing_goes_in_order(
    ok: bool,
    first: WriteStage,
    second: WriteStage,
    third: WriteStage,
    done: WriteStage,
    failed: WriteStage,
)
    requires
        call_ensures(next_stage, (WriteStage::CreateDir, ok), first),
        call_ensures(next_stage, (WriteStage::WriteAside, ok), second),
        call_ensures(next_stage, (WriteStage::Rename, ok), third),
        call_ensures(next_stage, (WriteStage::Written, ok), done),
        call_ensures(next_stage, (WriteStage::Failed, ok), failed),
    ensures
        ok ==> first is WriteAside && second is Rename && third is Written,
        !ok ==> first is Failed && second is Failed && third is Failed,
        done is Written,
        failed is Failed,
{
}

/// A broker removes the rendezvous file exactly where the file names it.
pub proof fn law_only_the_owner_removes(
    found: Option<BrokerInfo>,
    broker_uuid: &str,
    r: bool,
)
    requires
        call_ensures(remove_broker_info_if_owned, (&found, broker_uuid), r),
    ensures
        found is None ==> !r,
        found is Some ==> (r <==> found->0.broker_uuid@ == broker_uuid@),
{
}

} // verus!
