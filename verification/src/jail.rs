//! The sandbox of the process that serves a shared directory to the guest:
//! which restrictions it takes on, and in which order.
//!
//! Applying a restriction is the caller's part. What is decided here is the
//! list of them.

use vstd::prelude::*;
use crate::text::push_decimal;
use crate::text::str_eq;
use crate::text::spec_decimal;

verus! {

/// The mount propagation that keeps mounts of the sandbox from the host.
pub const MS_SLAVE: u64 = 0x8_0000;

/// The limit on open files.
pub const RLIMIT_NOFILE: i32 = 7;

/// The limit on locked memory.
pub const RLIMIT_MEMLOCK: i32 = 8;

/// How much memory the sandboxed process may lock: one mebibyte.
pub const MEMLOCK_LIMIT: u64 = 0x10_0000;

/// The bit that keeps capabilities when the thread changes its user.
pub const SECBIT_NO_SETUID_FIXUP: i32 = 4;

/// One restriction that a process takes on before it forks into its
/// sandbox.
#[derive(Debug)]
pub enum JailSetting {
    NamespacePids,
    NamespaceUser,
    NamespaceUserDisableSetgroups,
    ChangeUid(u32),
    ChangeGid(u32),
    UidMap(String),
    GidMap(String),
    RunAsInit,
    NamespaceVfs,
    NamespaceNet,
    NoNewPrivs,
    EnterPivotRoot(String),
    SetRemountMode(u64),
    SetRlimit { kind: i32, cur: u64, max: u64 },
}

/// A [`JailSetting`] with its text as a sequence.
pub enum JailSettingView {
    NamespacePids,
    NamespaceUser,
    NamespaceUserDisableSetgroups,
    ChangeUid(u32),
    ChangeGid(u32),
    UidMap(Seq<char>),
    GidMap(Seq<char>),
    RunAsInit,
    NamespaceVfs,
    NamespaceNet,
    NoNewPrivs,
    EnterPivotRoot(Seq<char>),
    SetRemountMode(u64),
    SetRlimit { kind: i32, cur: u64, max: u64 },
}

impl View for JailSetting {
    type V = JailSettingView;

    open spec fn view(&self) -> JailSettingView {
        match *self {
            JailSetting::NamespacePids => JailSettingView::NamespacePids,
            JailSetting::NamespaceUser => JailSettingView::NamespaceUser,
            JailSetting::NamespaceUserDisableSetgroups => JailSettingView::NamespaceUserDisableSetgroups,
            JailSetting::ChangeUid(uid) => JailSettingView::ChangeUid(uid),
            JailSetting::ChangeGid(gid) => JailSettingView::ChangeGid(gid),
            JailSetting::UidMap(map) => JailSettingView::UidMap(map@),
            JailSetting::GidMap(map) => JailSettingView::GidMap(map@),
            JailSetting::RunAsInit => JailSettingView::RunAsInit,
            JailSetting::NamespaceVfs => JailSettingView::NamespaceVfs,
            JailSetting::NamespaceNet => JailSettingView::NamespaceNet,
            JailSetting::NoNewPrivs => JailSettingView::NoNewPrivs,
            JailSetting::EnterPivotRoot(dir) => JailSettingView::EnterPivotRoot(dir@),
            JailSetting::SetRemountMode(mode) => JailSettingView::SetRemountMode(mode),
            JailSetting::SetRlimit { kind, cur, max } => JailSettingView::SetRlimit { kind, cur, max },
        }
    }
}

/// The settings of a list, each by its view.
pub open spec fn setting_views(settings: Seq<JailSetting>) -> Seq<JailSettingView> {
    settings.map_values(|s: JailSetting| s@)
}

/// The map that gives the one identity `id` of the host the same number
/// inside the sandbox.
pub open spec fn spec_default_id_map(id: u32) -> Seq<char> {
    spec_decimal(id as nat) + " "@ + spec_decimal(id as nat) + " 1"@
}

/// The map that gives the one identity `id` of the host the same number
/// inside the sandbox.
pub fn default_id_map(id: u32) -> (map: String)
    ensures
        map@ == spec_default_id_map(id),
{
    let mut map = String::new();
    proof {
        reveal_strlit("");
        reveal_strlit(" ");
        reveal_strlit(" 1");
    }
    assert(map@ == Seq::<char>::empty());
    push_decimal(&mut map, id as u64);
    assert(map@ =~= spec_decimal(id as nat));
    map.push_str(" ");
    push_decimal(&mut map, id as u64);
    map.push_str(" 1");
    map
}

/// The map that is asked for, or else the default for `id`.
pub open spec fn spec_id_map(asked: Option<Seq<char>>, id: u32) -> Seq<char> {
    match asked {
        Some(map) => map,
        None => spec_default_id_map(id),
    }
}

/// What is asked for by name, as a sequence.
pub open spec fn asked_view(asked: Option<String>) -> Option<Seq<char>> {
    match asked {
        Some(map) => Some(map@),
        None => None,
    }
}

/// The restrictions of the process that serves the directory `dir_path`,
/// in the order in which they are taken on.
///
/// The process runs as `uid` and `gid` where these are not 0. Its maps of
/// users and groups are those asked for, or else the defaults for the
/// effective user `euid` and group `egid` of the caller. It enters
/// `dir_path` as its root unless that is the root already. It may open
/// `max_open_files` files.
pub open spec fn spec_jail_settings(
    dir_path: Seq<char>,
    uid: u32,
    gid: u32,
    uid_map: Option<Seq<char>>,
    gid_map: Option<Seq<char>>,
    euid: u32,
    egid: u32,
    max_open_files: u64,
) -> Seq<JailSettingView> {
    seq![
        JailSettingView::NamespacePids,
        JailSettingView::NamespaceUser,
        JailSettingView::NamespaceUserDisableSetgroups,
    ] + (if uid != 0 {
        seq![JailSettingView::ChangeUid(uid)]
    } else {
        seq![]
    }) + (if gid != 0 {
        seq![JailSettingView::ChangeGid(gid)]
    } else {
        seq![]
    }) + seq![
        JailSettingView::UidMap(spec_id_map(uid_map, euid)),
        JailSettingView::GidMap(spec_id_map(gid_map, egid)),
        JailSettingView::RunAsInit,
        JailSettingView::NamespaceVfs,
        JailSettingView::NamespaceNet,
        JailSettingView::NoNewPrivs,
    ] + (if dir_path != "/"@ {
        seq![JailSettingView::NamespaceVfs, JailSettingView::EnterPivotRoot(dir_path)]
    } else {
        seq![]
    }) + seq![
        JailSettingView::SetRemountMode(MS_SLAVE),
        JailSettingView::SetRlimit { kind: RLIMIT_NOFILE, cur: max_open_files, max: max_open_files },
        JailSettingView::SetRlimit { kind: RLIMIT_MEMLOCK, cur: MEMLOCK_LIMIT, max: MEMLOCK_LIMIT },
    ]
}

/// The restrictions of the process that serves the directory `dir_path`,
/// in the order in which they are taken on.
pub fn jail_settings(
    dir_path: String,
    uid: u32,
    gid: u32,
    uid_map: Option<String>,
    gid_map: Option<String>,
    euid: u32,
    egid: u32,
    max_open_files: u64,
) -> (settings: Vec<JailSetting>)
    ensures
        setting_views(settings@) == spec_jail_settings(
            dir_path@,
            uid,
            gid,
            asked_view(uid_map),
            asked_view(gid_map),
            euid,
            egid,
            max_open_files,
        ),
{
    let ghost goal = spec_jail_settings(
        dir_path@,
        uid,
        gid,
        asked_view(uid_map),
        asked_view(gid_map),
        euid,
        egid,
        max_open_files,
    );
    let mut settings: Vec<JailSetting> = Vec::new();
    settings.push(JailSetting::NamespacePids);
    settings.push(JailSetting::NamespaceUser);
    settings.push(JailSetting::NamespaceUserDisableSetgroups);
    if uid != 0 {
        settings.push(JailSetting::ChangeUid(uid));
    }
    if gid != 0 {
        settings.push(JailSetting::ChangeGid(gid));
    }
    let uid_map = match uid_map {
        Some(map) => map,
        None => default_id_map(euid),
    };
    let gid_map = match gid_map {
        Some(map) => map,
        None => default_id_map(egid),
    };
    settings.push(JailSetting::UidMap(uid_map));
    settings.push(JailSetting::GidMap(gid_map));
    settings.push(JailSetting::RunAsInit);
    settings.push(JailSetting::NamespaceVfs);
    settings.push(JailSetting::NamespaceNet);
    settings.push(JailSetting::NoNewPrivs);
    // Only a directory other than the root is entered as a new root.
    proof {
        reveal_strlit("/");
    }
    if !str_eq(dir_path.as_str(), "/") {
        settings.push(JailSetting::NamespaceVfs);
        settings.push(JailSetting::EnterPivotRoot(dir_path));
    }
    settings.push(JailSetting::SetRemountMode(MS_SLAVE));
    settings.push(
        JailSetting::SetRlimit { kind: RLIMIT_NOFILE, cur: max_open_files, max: max_open_files },
    );
    settings.push(
        JailSetting::SetRlimit { kind: RLIMIT_MEMLOCK, cur: MEMLOCK_LIMIT, max: MEMLOCK_LIMIT },
    );
    assert(setting_views(settings@) =~= goal);
    settings
}

/// The secure bits of the serving process: those it has, and the one that
/// keeps its capabilities when it changes the user of a thread.
pub fn serving_securebits(securebits: i32) -> (bits: i32)
    ensures
        bits == securebits | SECBIT_NO_SETUID_FIXUP,
{
    securebits | SECBIT_NO_SETUID_FIXUP
}

} // verus!
