use vstd::prelude::*;

use crate::identity::{file_stem_of, is_alphanumeric, resolve_id, ID_LEN};
use crate::mapping::{deny_bytes, deny_token, id_map_bytes, id_map_line};

verus! {

/// Directory under which each container's root filesystem lives, one
/// subdirectory per container id.
pub open spec fn containers_root() -> Seq<char> {
    "/var/lib/ace/containers"@
}

/// The root filesystem directory of the container with id `id`.
pub open spec fn rootfs_path(id: Seq<char>) -> Seq<char> {
    containers_root() + "/"@ + id
}

/// The user-ID mapping file of the calling process.
pub open spec fn uid_map_file() -> Seq<char> {
    "/proc/self/uid_map"@
}

/// The group-ID mapping file of the calling process.
pub open spec fn gid_map_file() -> Seq<char> {
    "/proc/self/gid_map"@
}

/// The file that controls whether the calling process may change its groups.
pub open spec fn setgroups_file() -> Seq<char> {
    "/proc/self/setgroups"@
}

/// Handle on the provider of root filesystems, scoped to an image name.
#[derive(Debug)]
pub struct Image {
    pub name: String,
}

impl Image {
    pub fn new(name: &str) -> (r: Image)
        ensures
            r.name@ == name@,
    {
        Image { name: name.to_owned() }
    }

    /// Absolute path of the root filesystem of the container `id`.
    pub fn get_full_path(&self, id: &str) -> (r: String)
        ensures
            r@ == rootfs_path(id@),
    {
        let mut path = "/var/lib/ace/containers".to_owned();
        path.append("/");
        path.append(id);
        path
    }
}

/// A set of namespaces, one flag for each kind a container may get.
#[derive(Debug, Clone, Copy, PartialEq, Eq, Structural)]
pub struct Namespaces {
    pub pid: bool,
    pub uts: bool,
    pub mount: bool,
    pub user: bool,
}

/// The namespaces a container gets: PID, UTS, mount and user, and no other.
pub open spec fn container_namespaces() -> Namespaces {
    Namespaces { pid: true, uts: true, mount: true, user: true }
}

/// One operation on the host, in the order a container is prepared.
#[derive(Debug)]
pub enum Step {
    /// Have the image provider materialise `image` as the root filesystem of `id`.
    PullImage { image: String, id: String },
    /// Copy the host file `from` to `to`.
    CopyFile { from: String, to: String },
    /// Move the process into new namespaces of the kinds set, all in one call.
    Unshare { namespaces: Namespaces },
    /// Write `contents` to the file `path`.
    WriteFile { path: String, contents: Vec<u8> },
    /// Change the process root to `path`.
    ChangeRoot { path: String },
    /// Change the working directory to `path`.
    ChangeDir { path: String },
    /// Set the hostname of the UTS namespace.
    SetHostname { name: String },
}

/// What a `Step` denotes, over sequences.
pub enum StepModel {
    PullImage { image: Seq<char>, id: Seq<char> },
    CopyFile { from: Seq<char>, to: Seq<char> },
    Unshare { namespaces: Namespaces },
    WriteFile { path: Seq<char>, contents: Seq<u8> },
    ChangeRoot { path: Seq<char> },
    ChangeDir { path: Seq<char> },
    SetHostname { name: Seq<char> },
}

impl View for Step {
    type V = StepModel;

    open spec fn view(&self) -> StepModel {
        match self {
            Step::PullImage { image, id } => StepModel::PullImage { image: image@, id: id@ },
            Step::CopyFile { from, to } => StepModel::CopyFile { from: from@, to: to@ },
            Step::Unshare { namespaces } => StepModel::Unshare { namespaces: *namespaces },
            Step::WriteFile { path, contents } => StepModel::WriteFile {
                path: path@,
                contents: contents@,
            },
            Step::ChangeRoot { path } => StepModel::ChangeRoot { path: path@ },
            Step::ChangeDir { path } => StepModel::ChangeDir { path: path@ },
            Step::SetHostname { name } => StepModel::SetHostname { name: name@ },
        }
    }
}

/// The steps of a plan, viewed.
pub open spec fn plan_view(plan: Seq<Step>) -> Seq<StepModel> {
    plan.map_values(|s: Step| s@)
}

/// A container: what runs, under which name, from which root filesystem.
#[derive(Debug)]
pub struct Container {
    pub id: String,
    pub name: String,
    pub command: String,
    pub image: Image,
    /// Real user id of the creating process on the host.
    pub host_uid: u32,
    /// Real group id of the creating process on the host.
    pub host_gid: u32,
    /// Root filesystem supplied by the caller, or empty when the image
    /// provider materialises one.
    pub path: String,
}

/// Relies on nix's `getuid`: the real user id of the calling process.
#[verifier::external_body]
fn host_uid() -> (r: u32) {
    nix::unistd::getuid().as_raw()
}

/// Relies on nix's `getgid`: the real group id of the calling process.
#[verifier::external_body]
fn host_gid() -> (r: u32) {
    nix::unistd::getgid().as_raw()
}

/// The steps that prepare container `c`: materialise its root filesystem and
/// copy the host's name-resolution files into it (only when no path was
/// supplied), enter new PID, UTS, mount and user namespaces in one call, map root inside to the host ids (group
/// changes denied before the group mapping), jail the process in the root
/// filesystem and name the host.
pub open spec fn prepare_plan(c: Container) -> Seq<StepModel> {
    let root = rootfs_path(c.id@);
    let materialise = if c.path@.len() == 0 {
        seq![
            StepModel::PullImage { image: c.image.name@, id: c.id@ },
            StepModel::CopyFile { from: "/etc/hosts"@, to: root + "/etc/hosts"@ },
            StepModel::CopyFile { from: "/etc/resolv.conf"@, to: root + "/etc/resolv.conf"@ },
        ]
    } else {
        Seq::empty()
    };
    materialise + seq![
        StepModel::Unshare { namespaces: container_namespaces() },
        StepModel::WriteFile { path: uid_map_file(), contents: id_map_line(c.host_uid as nat) },
        StepModel::WriteFile { path: setgroups_file(), contents: deny_token() },
        StepModel::WriteFile { path: gid_map_file(), contents: id_map_line(c.host_gid as nat) },
        StepModel::ChangeRoot { path: root },
        StepModel::ChangeDir { path: "/"@ },
        StepModel::SetHostname { name: c.name@ },
    ]
}

impl Container {
    /// A container named `name` that runs `command`. With a `path`, the id is
    /// the path's file stem and the root filesystem is taken as prepared;
    /// without one, the id is fresh and random.
    pub fn new(name: &str, command: String, path: Option<&str>) -> (r: Container)
        requires
            path matches Some(p) ==> file_stem_of(p@).is_some(),
        ensures
            r.name@ == name@,
            r.command@ == command@,
            r.image.name@ == name@,
            match path {
                Some(p) => file_stem_of(p@) == Some(r.id@) && r.path@ == p@,
                None => r.id@.len() == ID_LEN && (forall|i: int|
                    0 <= i < r.id@.len() ==> is_alphanumeric(#[trigger] r.id@[i]))
                    && r.path@.len() == 0,
            },
    {
        let id = match resolve_id(path) {
            Some(id) => id,
            None => String::new(),
        };
        let path = match path {
            Some(p) => p.to_owned(),
            None => String::new(),
        };
        Container {
            id,
            name: name.to_owned(),
            command,
            image: Image::new(name),
            host_uid: host_uid(),
            host_gid: host_gid(),
            path,
        }
    }

    /// The root filesystem directory of this container; removing it deletes
    /// the container.
    pub fn rootfs(&self) -> (r: String)
        ensures
            r@ == rootfs_path(self.id@),
    {
        self.image.get_full_path(self.id.as_str())
    }

    /// The rules of the ID-mapping files: `0 <host_uid> 1` to the user map,
    /// `deny` to the group control, then `0 <host_gid> 1` to the group map.
    fn push_id_mappings(&self, plan: &mut Vec<Step>)
        ensures
            plan_view(final(plan)@) == plan_view(old(plan)@) + seq![
                StepModel::WriteFile { path: uid_map_file(), contents: id_map_line(self.host_uid as nat) },
                StepModel::WriteFile { path: setgroups_file(), contents: deny_token() },
                StepModel::WriteFile { path: gid_map_file(), contents: id_map_line(self.host_gid as nat) },
            ],
    {
        plan.push(Step::WriteFile { path: "/proc/self/uid_map".to_owned(), contents: id_map_bytes(self.host_uid) });
        plan.push(Step::WriteFile { path: "/proc/self/setgroups".to_owned(), contents: deny_bytes() });
        plan.push(Step::WriteFile { path: "/proc/self/gid_map".to_owned(), contents: id_map_bytes(self.host_gid) });
        assert(plan_view(final(plan)@) =~= plan_view(old(plan)@) + seq![
            StepModel::WriteFile { path: uid_map_file(), contents: id_map_line(self.host_uid as nat) },
            StepModel::WriteFile { path: setgroups_file(), contents: deny_token() },
            StepModel::WriteFile { path: gid_map_file(), contents: id_map_line(self.host_gid as nat) },
        ]);
    }

    /// The steps that prepare this container, in the order they must be
    /// performed; a failed step ends the preparation.
    pub fn prepare(&self) -> (plan: Vec<Step>)
        ensures
            plan_view(plan@) == prepare_plan(*self),
    {
        let root = self.rootfs();
        let mut plan: Vec<Step> = Vec::new();
        if self.path.unicode_len() == 0 {
            let mut hosts = root.clone();
            hosts.append("/etc/hosts");
            let mut resolv = root.clone();
            resolv.append("/etc/resolv.conf");
            plan.push(Step::PullImage { image: self.image.name.clone(), id: self.id.clone() });
            plan.push(Step::CopyFile { from: "/etc/hosts".to_owned(), to: hosts });
            plan.push(Step::CopyFile { from: "/etc/resolv.conf".to_owned(), to: resolv });
        }
        let ghost head = plan_view(plan@);
        assert(head =~= prepare_plan(*self).subrange(0, head.len() as int));
        plan.push(Step::Unshare { namespaces: Namespaces { pid: true, uts: true, mount: true, user: true } });
        self.push_id_mappings(&mut plan);
        let ghost mapped = plan_view(plan@);
        plan.push(Step::ChangeRoot { path: root });
        plan.push(Step::ChangeDir { path: "/".to_owned() });
        plan.push(Step::SetHostname { name: self.name.clone() });
        assert(plan_view(plan@) =~= mapped + seq![
            StepModel::ChangeRoot { path: rootfs_path(self.id@) },
            StepModel::ChangeDir { path: "/"@ },
            StepModel::SetHostname { name: self.name@ },
        ]);
        assert(plan_view(plan@) =~= prepare_plan(*self));
        plan
    }
}

/// A container part way through preparation: its plan and how many steps
/// of it the host has completed, in order.
#[derive(Debug)]
pub struct Preparation {
    container: Container,
    plan: Vec<Step>,
    done: usize,
}

/// A preparation that stopped: the position of the step that failed, and
/// that step.
#[derive(Debug)]
pub struct Aborted {
    pub index: usize,
    pub step: Step,
}

/// A container whose preparation completed; only such a container is run.
#[derive(Debug)]
pub struct Jailed {
    container: Container,
}

impl Preparation {
    pub closed spec fn subject(&self) -> Container {
        self.container
    }

    pub closed spec fn steps(&self) -> Seq<StepModel> {
        plan_view(self.plan@)
    }

    pub closed spec fn completed(&self) -> nat {
        self.done as nat
    }

    pub closed spec fn wf(&self) -> bool {
        self.done <= self.plan@.len()
    }

    /// Starts preparing `container`, with no step done.
    pub fn new(container: Container) -> (r: Preparation)
        ensures
            r.wf(),
            r.subject() == container,
            r.steps() == prepare_plan(container),
            r.completed() == 0,
    {
        let plan = container.prepare();
        Preparation { container, plan, done: 0 }
    }

    pub fn container(&self) -> (r: &Container)
        ensures
            *r == self.subject(),
    {
        &self.container
    }

    /// The first step not done yet, or `None` when all are done.
    pub fn next_step(&self) -> (r: Option<&Step>)
        requires
            self.wf(),
        ensures
            match r {
                Some(step) => self.completed() < self.steps().len() && step@ == self.steps()[self.completed() as int],
                None => self.completed() == self.steps().len(),
            },
    {
        if self.done < self.plan.len() {
            Some(&self.plan[self.done])
        } else {
            None
        }
    }

    /// Records that the host performed the next step.
    pub fn step_done(&mut self)
        requires
            old(self).wf(),
            old(self).completed() < old(self).steps().len(),
        ensures
            final(self).wf(),
            final(self).subject() == old(self).subject(),
            final(self).steps() == old(self).steps(),
            final(self).completed() == old(self).completed() + 1,
    {
        assert(plan_view(self.plan@).len() == self.plan@.len());
        if self.done < self.plan.len() {
            self.done = self.done + 1;
        }
    }

    /// Records that the host failed to perform the next step. Preparation ends
    /// there: the preparation is consumed, so no jailed container can come of it.
    pub fn step_failed(self) -> (r: Aborted)
        requires
            self.wf(),
            self.completed() < self.steps().len(),
        ensures
            r.index == self.completed(),
            r.step@ == self.steps()[self.completed() as int],
    {
        let mut plan = self.plan;
        let index = self.done;
        let step = plan.remove(index);
        Aborted { index, step }
    }

    /// The jailed container once every step is done; else the preparation
    /// unchanged.
    pub fn finish(self) -> (r: Result<Jailed, Preparation>)
        requires
            self.wf(),
        ensures
            match r {
                Ok(j) => self.completed() == self.steps().len() && j.subject() == self.subject(),
                Err(p) => self.completed() < self.steps().len() && p == self,
            },
    {
        if self.done == self.plan.len() {
            Ok(Jailed { container: self.container })
        } else {
            Err(self)
        }
    }
}

impl Jailed {
    pub closed spec fn subject(&self) -> Container {
        self.container
    }

    pub fn container(&self) -> (r: &Container)
        ensures
            *r == self.subject(),
    {
        &self.container
    }
}

/// Group changes are denied before the group-ID mapping is written: every
/// plan writes the group map, and each write to it comes after a write of
/// `deny` to the group-control file.
pub proof fn lemma_setgroups_denied_before_gid_map(c: Container)
    ensures
        exists|k: int|
            0 <= k < prepare_plan(c).len() && #[trigger] prepare_plan(c)[k] == (StepModel::WriteFile {
                path: gid_map_file(),
                contents: id_map_line(c.host_gid as nat),
            }),
        forall|k: int|
            0 <= k < prepare_plan(c).len() && (#[trigger] prepare_plan(c)[k] matches StepModel::WriteFile {
                path,
                ..
            } && path == gid_map_file()) ==> exists|i: int|
                0 <= i < k && #[trigger] prepare_plan(c)[i] == (StepModel::WriteFile {
                    path: setgroups_file(),
                    contents: deny_token(),
                }),
{
    reveal_strlit("/proc/self/uid_map");
    reveal_strlit("/proc/self/gid_map");
    reveal_strlit("/proc/self/setgroups");
    let plan = prepare_plan(c);
    let h: int = if c.path@.len() == 0 { 3 } else { 0 };
    assert(uid_map_file()[11] != gid_map_file()[11]);
    assert(setgroups_file().len() != gid_map_file().len());
    assert(plan[h + 3] == (StepModel::WriteFile {
        path: gid_map_file(),
        contents: id_map_line(c.host_gid as nat),
    }));
    assert forall|k: int|
        0 <= k < plan.len() && (#[trigger] plan[k] matches StepModel::WriteFile { path, .. } && path
            == gid_map_file()) implies exists|i: int|
        0 <= i < k && #[trigger] plan[i] == (StepModel::WriteFile {
            path: setgroups_file(),
            contents: deny_token(),
        }) by {
        assert(k == h + 3);
        assert(plan[h + 2] == (StepModel::WriteFile { path: setgroups_file(), contents: deny_token() }));
    }
}

/// A container whose root filesystem was supplied is not materialised again:
/// its plan neither pulls an image nor copies files into the root filesystem.
pub proof fn lemma_supplied_rootfs_not_materialised(c: Container)
    requires
        c.path@.len() > 0,
    ensures
        forall|k: int|
            0 <= k < prepare_plan(c).len() ==> !(#[trigger] prepare_plan(c)[k] is PullImage)
                && !(prepare_plan(c)[k] is CopyFile),
{
}

} // verus!
