//! The description of the container to create, and the options of the
//! attach request.

use vstd::prelude::*;

verus! {

/// Host-side options of a container.
#[derive(Clone, Copy, Debug, PartialEq, Eq, Structural)]
pub struct HostOptions {
    /// The engine removes the container once it exits.
    pub auto_remove: bool,
    /// Every exposed port is published on the host.
    pub publish_all_ports: bool,
}

/// How a container is to be created: image, command, environment, terminal
/// flags and host options. Built once and read-only afterwards.
#[derive(Debug, PartialEq, Eq)]
pub struct ContainerSpec {
    image: String,
    cmd: Vec<String>,
    env: Vec<String>,
    tty: bool,
    open_stdin: bool,
    host: HostOptions,
}

/// The mathematical value of a [`ContainerSpec`].
pub struct ContainerSpecView {
    pub image: Seq<char>,
    pub cmd: Seq<Seq<char>>,
    pub env: Seq<Seq<char>>,
    pub tty: bool,
    pub open_stdin: bool,
    pub host: HostOptions,
}

impl ContainerSpecView {
    /// The description of an interactive container: a terminal is allocated,
    /// stdin stays open, the container is removed when it exits and all its
    /// ports are published.
    pub open spec fn interactive(image: Seq<char>, cmd: Seq<Seq<char>>, env: Seq<Seq<char>>) -> Self {
        ContainerSpecView {
            image,
            cmd,
            env,
            tty: true,
            open_stdin: true,
            host: HostOptions { auto_remove: true, publish_all_ports: true },
        }
    }

    /// All four flags are enabled.
    pub open spec fn is_interactive(self) -> bool {
        self.tty && self.open_stdin && self.host.auto_remove && self.host.publish_all_ports
    }
}

impl View for ContainerSpec {
    type V = ContainerSpecView;

    closed spec fn view(&self) -> ContainerSpecView {
        ContainerSpecView {
            image: self.image@,
            cmd: self.cmd.deep_view(),
            env: self.env.deep_view(),
            tty: self.tty,
            open_stdin: self.open_stdin,
            host: self.host,
        }
    }
}

impl ContainerSpec {
    /// Describes an interactive container that runs `cmd` in `image` with the
    /// environment `env`.
    pub fn new(image: String, cmd: Vec<String>, env: Vec<String>) -> (spec: ContainerSpec)
        ensures
            spec@ == ContainerSpecView::interactive(image@, cmd.deep_view(), env.deep_view()),
    {
        ContainerSpec {
            image,
            cmd,
            env,
            tty: true,
            open_stdin: true,
            host: HostOptions { auto_remove: true, publish_all_ports: true },
        }
    }

    /// Holds of every description that exists at run time: the four flags
    /// are enabled.
    #[verifier::type_invariant]
    pub open spec fn well_formed(&self) -> bool {
        self@.is_interactive()
    }

    /// The image reference.
    pub fn image(&self) -> (image: &str)
        ensures
            image@ == self@.image,
    {
        self.image.as_str()
    }

    /// The command vector.
    pub fn cmd(&self) -> (cmd: &Vec<String>)
        ensures
            cmd.deep_view() == self@.cmd,
    {
        &self.cmd
    }

    /// The environment, one `NAME=value` entry each.
    pub fn env(&self) -> (env: &Vec<String>)
        ensures
            env.deep_view() == self@.env,
    {
        &self.env
    }

    /// Whether a terminal is allocated.
    pub fn tty(&self) -> (tty: bool)
        ensures
            tty == self@.tty,
    {
        self.tty
    }

    /// Whether stdin stays open.
    pub fn open_stdin(&self) -> (open_stdin: bool)
        ensures
            open_stdin == self@.open_stdin,
    {
        self.open_stdin
    }

    /// The host options.
    pub fn host(&self) -> (host: HostOptions)
        ensures
            host == self@.host,
    {
        self.host
    }
}

impl Clone for ContainerSpec {
    fn clone(&self) -> (copy: ContainerSpec)
        ensures
            copy@ == self@,
    {
        proof {
            use_type_invariant(self);
        }
        let image = self.image.clone();
        let cmd = self.cmd.clone();
        let env = self.env.clone();
        proof {
            assert(cmd.deep_view() =~= self.cmd.deep_view());
            assert(env.deep_view() =~= self.env.deep_view());
        }
        ContainerSpec {
            image,
            cmd,
            env,
            tty: self.tty,
            open_stdin: self.open_stdin,
            host: self.host,
        }
    }
}

/// Which streams an attach request asks for.
#[derive(Clone, Copy, Debug, PartialEq, Eq, Structural)]
pub struct AttachOptions {
    pub stdin: bool,
    pub stdout: bool,
    /// Stream what the container writes from now on.
    pub stream: bool,
    /// Replay what the container wrote before the attach.
    pub logs: bool,
}

impl AttachOptions {
    /// Both stdin and stdout, streamed, without what was written before.
    pub open spec fn spec_interactive() -> AttachOptions {
        AttachOptions { stdin: true, stdout: true, stream: true, logs: false }
    }

    /// The options of an interactive attachment.
    #[verifier::when_used_as_spec(spec_interactive)]
    pub fn interactive() -> (options: AttachOptions)
        ensures
            options == Self::spec_interactive(),
    {
        AttachOptions { stdin: true, stdout: true, stream: true, logs: false }
    }
}

} // verus!
