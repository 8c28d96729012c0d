//! The `docker` commands that integration tests run, as argument lists.
use crate::args::{
    entry_args, flag_arg, option_arg, publish_args, push_all, push_entries, push_flag, push_option,
    push_publish, push_string, strings, to_strings,
};
use crate::ports::{insert_port, sorted_ports};
use crate::sorted::{lookup, StringMap};
use std::collections::BTreeSet;
use crate::text::{decimal, push_decimal};
use vstd::prelude::*;

verus! {

/// The view of an optional string.
pub open spec fn opt_view(o: Option<String>) -> Option<Seq<char>> {
    match o {
        Some(s) => Some(s@),
        None => None,
    }
}

/// The view of an optional list of strings.
pub open spec fn opt_strings(o: Option<Vec<String>>) -> Seq<Seq<char>> {
    match o {
        Some(v) => strings(v@),
        None => Seq::empty(),
    }
}

/// A `docker run` command.
#[derive(Debug, Clone)]
pub struct DockerRunCommand {
    pub command: Option<Vec<String>>,
    pub container_name: String,
    pub detach: bool,
    pub entrypoint: Option<String>,
    pub env: StringMap,
    pub exposed_ports: BTreeSet<u16>,
    pub image_name: String,
    pub platform: Option<String>,
    pub remove: bool,
    pub volumes: StringMap,
}

/// The arguments of `docker run`: the container name, the flags and options that are set,
/// the environment by key, the volumes by source, the published ports in increasing order, the image, and the
/// command.
pub open spec fn docker_run_args(c: DockerRunCommand) -> Seq<Seq<char>> {
    seq!["run"@, "--name"@, c.container_name@] + flag_arg(c.detach, "--detach"@) + flag_arg(c.remove, "--rm"@)
        + option_arg(opt_view(c.platform), "--platform"@) + option_arg(opt_view(c.entrypoint), "--entrypoint"@)
        + entry_args(c.env@, "--env"@, "="@) + entry_args(c.volumes@, "--volume"@, ":"@) + publish_args(sorted_ports(c.exposed_ports@)) + seq![c.image_name@]
        + opt_strings(c.command)
}

impl DockerRunCommand {
    /// A command that runs `image_name` as `container_name`, with nothing else set.
    pub fn new(image_name: &str, container_name: &str) -> (r: Self)
        ensures
            r.command is None,
            r.container_name@ == container_name@,
            !r.detach,
            r.entrypoint is None,
            r.env@.len() == 0,
            r.exposed_ports@ == Set::<u16>::empty(),
            r.image_name@ == image_name@,
            r.platform is None,
            !r.remove,
            r.volumes@.len() == 0,
    {
        DockerRunCommand {
            command: None,
            container_name: container_name.to_owned(),
            detach: false,
            entrypoint: None,
            env: StringMap::new(),
            exposed_ports: BTreeSet::new(),
            image_name: image_name.to_owned(),
            platform: None,
            remove: false,
            volumes: StringMap::new(),
        }
    }

    /// Sets the command to run in the container.
    pub fn command(&mut self, command: &[&str]) -> (r: &mut Self)
        ensures
            *final(self) == *final(r),
            opt_strings(r.command) == command@.map_values(|s: &str| s@),
            r.command is Some,
            r.container_name == old(self).container_name,
            r.detach == old(self).detach,
            r.entrypoint == old(self).entrypoint,
            r.env@ == old(self).env@,
            r.exposed_ports@ == old(self).exposed_ports@,
            r.image_name == old(self).image_name,
            r.platform == old(self).platform,
            r.remove == old(self).remove,
            r.volumes@ == old(self).volumes@,
    {
        self.command = Some(to_strings(command));
        self
    }

    /// Sets whether the container runs detached.
    pub fn detach(&mut self, detach: bool) -> (r: &mut Self)
        ensures
            *final(self) == *final(r),
            *r == (DockerRunCommand { detach, ..*old(self) }),
    {
        self.detach = detach;
        self
    }

    /// Sets the entrypoint of the container.
    pub fn entrypoint(&mut self, entrypoint: &str) -> (r: &mut Self)
        ensures
            *final(self) == *final(r),
            opt_view(r.entrypoint) == Some(entrypoint@),
            r.command == old(self).command,
            r.container_name == old(self).container_name,
            r.detach == old(self).detach,
            r.env@ == old(self).env@,
            r.exposed_ports@ == old(self).exposed_ports@,
            r.image_name == old(self).image_name,
            r.platform == old(self).platform,
            r.remove == old(self).remove,
            r.volumes@ == old(self).volumes@,
    {
        self.entrypoint = Some(entrypoint.to_owned());
        self
    }

    /// Sets an environment variable of the container.
    pub fn env(&mut self, k: &str, v: &str) -> (r: &mut Self)
        ensures
            *final(self) == *final(r),
            forall|key: Seq<char>|
                lookup(r.env@, key) == if key == k@ {
                    Some(v@)
                } else {
                    lookup(old(self).env@, key)
                },
            r.command == old(self).command,
            r.container_name == old(self).container_name,
            r.detach == old(self).detach,
            r.entrypoint == old(self).entrypoint,
            r.exposed_ports@ == old(self).exposed_ports@,
            r.image_name == old(self).image_name,
            r.platform == old(self).platform,
            r.remove == old(self).remove,
            r.volumes@ == old(self).volumes@,
    {
        self.env.insert(k.to_owned(), v.to_owned());
        self
    }

    /// Publishes a port of the container on a random port of the host.
    pub fn expose_port(&mut self, port: u16) -> (r: &mut Self)
        ensures
            *final(self) == *final(r),
            r.exposed_ports@ == old(self).exposed_ports@.insert(port),
            r.command == old(self).command,
            r.container_name == old(self).container_name,
            r.detach == old(self).detach,
            r.entrypoint == old(self).entrypoint,
            r.env@ == old(self).env@,
            r.image_name == old(self).image_name,
            r.platform == old(self).platform,
            r.remove == old(self).remove,
            r.volumes@ == old(self).volumes@,
    {
        insert_port(&mut self.exposed_ports, port);
        self
    }

    /// Sets the platform of the container.
    pub fn platform(&mut self, platform: &str) -> (r: &mut Self)
        ensures
            *final(self) == *final(r),
            opt_view(r.platform) == Some(platform@),
            r.command == old(self).command,
            r.container_name == old(self).container_name,
            r.detach == old(self).detach,
            r.entrypoint == old(self).entrypoint,
            r.env@ == old(self).env@,
            r.exposed_ports@ == old(self).exposed_ports@,
            r.image_name == old(self).image_name,
            r.remove == old(self).remove,
            r.volumes@ == old(self).volumes@,
    {
        self.platform = Some(platform.to_owned());
        self
    }

    /// Sets whether the container is removed when it exits.
    pub fn remove(&mut self, remove: bool) -> (r: &mut Self)
        ensures
            *final(self) == *final(r),
            *r == (DockerRunCommand { remove, ..*old(self) }),
    {
        self.remove = remove;
        self
    }

    /// Mounts `source` of the host at `destination` in the container.
    pub fn volume(&mut self, source: &str, destination: &str) -> (r: &mut Self)
        ensures
            *final(self) == *final(r),
            forall|k: Seq<char>|
                lookup(r.volumes@, k) == if k == source@ {
                    Some(destination@)
                } else {
                    lookup(old(self).volumes@, k)
                },
            r.command == old(self).command,
            r.container_name == old(self).container_name,
            r.detach == old(self).detach,
            r.entrypoint == old(self).entrypoint,
            r.env@ == old(self).env@,
            r.exposed_ports@ == old(self).exposed_ports@,
            r.image_name == old(self).image_name,
            r.platform == old(self).platform,
            r.remove == old(self).remove,
    {
        self.volumes.insert(source.to_owned(), destination.to_owned());
        self
    }

    /// The program to run: `docker`.
    pub fn program(&self) -> (r: &'static str)
        ensures
            r@ == "docker"@,
    {
        "docker"
    }

    /// The arguments of the command.
    pub fn args(&self) -> (r: Vec<String>)
        ensures
            strings(r@) == docker_run_args(*self),
    {
        let mut v: Vec<String> = Vec::new();
        push_string(&mut v, "run");
        push_string(&mut v, "--name");
        push_string(&mut v, self.container_name.as_str());
        push_flag(&mut v, self.detach, "--detach");
        push_flag(&mut v, self.remove, "--rm");
        push_option(&mut v, &self.platform, "--platform");
        push_option(&mut v, &self.entrypoint, "--entrypoint");
        push_entries(&mut v, &self.env, "--env", "=");
        push_entries(&mut v, &self.volumes, "--volume", ":");
        push_publish(&mut v, &self.exposed_ports);
        push_string(&mut v, self.image_name.as_str());
        match &self.command {
            Some(c) => push_all(&mut v, c),
            None => {},
        }
        assert(strings(v@) =~= docker_run_args(*self));
        v
    }
}

/// A `docker exec` command.
#[derive(Debug, Clone)]
pub struct DockerExecCommand {
    pub command: Vec<String>,
    pub container_name: String,
}

impl DockerExecCommand {
    /// A command that runs `command` in the container `container_name`.
    pub fn new(container_name: &str, command: &[&str]) -> (r: Self)
        ensures
            strings(r.command@) == command@.map_values(|s: &str| s@),
            r.container_name@ == container_name@,
    {
        DockerExecCommand { command: to_strings(command), container_name: container_name.to_owned() }
    }

    /// The program to run: `docker`.
    pub fn program(&self) -> (r: &'static str)
        ensures
            r@ == "docker"@,
    {
        "docker"
    }

    /// The arguments: `exec`, the container and the command.
    pub fn args(&self) -> (r: Vec<String>)
        ensures
            strings(r@) == seq!["exec"@, self.container_name@] + strings(self.command@),
    {
        let mut v: Vec<String> = Vec::new();
        push_string(&mut v, "exec");
        push_string(&mut v, self.container_name.as_str());
        push_all(&mut v, &self.command);
        assert(strings(v@) =~= seq!["exec"@, self.container_name@] + strings(self.command@));
        v
    }
}

/// A `docker logs` command.
#[derive(Debug, Clone)]
pub struct DockerLogsCommand {
    pub container_name: String,
    pub follow: bool,
}

impl DockerLogsCommand {
    /// A command that prints the logs of `container_name` so far.
    pub fn new(container_name: &str) -> (r: Self)
        ensures
            r.container_name@ == container_name@,
            !r.follow,
    {
        DockerLogsCommand { container_name: container_name.to_owned(), follow: false }
    }

    /// Sets whether the command waits for the container to stop.
    pub fn follow(&mut self, follow: bool) -> (r: &mut Self)
        ensures
            *final(self) == *final(r),
            r.follow == follow,
            r.container_name == old(self).container_name,
    {
        self.follow = follow;
        self
    }

    /// The program to run: `docker`.
    pub fn program(&self) -> (r: &'static str)
        ensures
            r@ == "docker"@,
    {
        "docker"
    }

    /// The arguments: `logs`, the container, and `--follow` where set.
    pub fn args(&self) -> (r: Vec<String>)
        ensures
            strings(r@) == seq!["logs"@, self.container_name@] + flag_arg(self.follow, "--follow"@),
    {
        let mut v: Vec<String> = Vec::new();
        push_string(&mut v, "logs");
        push_string(&mut v, self.container_name.as_str());
        push_flag(&mut v, self.follow, "--follow");
        v
    }
}

/// A `docker port` command.
#[derive(Debug, Clone)]
pub struct DockerPortCommand {
    pub container_name: String,
    pub port: u16,
}

impl DockerPortCommand {
    /// A command that prints the host address of `port` of the container.
    pub fn new(container_name: &str, port: u16) -> (r: Self)
        ensures
            r.container_name@ == container_name@,
            r.port == port,
    {
        DockerPortCommand { container_name: container_name.to_owned(), port }
    }

    /// The program to run: `docker`.
    pub fn program(&self) -> (r: &'static str)
        ensures
            r@ == "docker"@,
    {
        "docker"
    }

    /// The arguments: `port`, the container and the port number.
    pub fn args(&self) -> (r: Vec<String>)
        ensures
            strings(r@) == seq!["port"@, self.container_name@, decimal(self.port as nat)],
    {
        let mut v: Vec<String> = Vec::new();
        push_string(&mut v, "port");
        push_string(&mut v, self.container_name.as_str());
        let mut number = String::new();
        push_decimal(&mut number, self.port as u64);
        push_string(&mut v, number.as_str());
        assert(strings(v@) =~= seq!["port"@, self.container_name@, decimal(self.port as nat)]);
        v
    }
}

/// A `docker rm` command.
#[derive(Debug, Clone)]
pub struct DockerRemoveContainerCommand {
    pub container_name: String,
    pub force: bool,
}

impl DockerRemoveContainerCommand {
    /// A command that removes the container, forcibly.
    pub fn new(container_name: &str) -> (r: Self)
        ensures
            r.container_name@ == container_name@,
            r.force,
    {
        DockerRemoveContainerCommand { container_name: container_name.to_owned(), force: true }
    }

    /// The program to run: `docker`.
    pub fn program(&self) -> (r: &'static str)
        ensures
            r@ == "docker"@,
    {
        "docker"
    }

    /// The arguments: `rm`, the container, and `--force` where set.
    pub fn args(&self) -> (r: Vec<String>)
        ensures
            strings(r@) == seq!["rm"@, self.container_name@] + flag_arg(self.force, "--force"@),
    {
        let mut v: Vec<String> = Vec::new();
        push_string(&mut v, "rm");
        push_string(&mut v, self.container_name.as_str());
        push_flag(&mut v, self.force, "--force");
        v
    }
}

/// A `docker rmi` command.
#[derive(Debug, Clone)]
pub struct DockerRemoveImageCommand {
    pub force: bool,
    pub image_name: String,
}

impl DockerRemoveImageCommand {
    /// A command that removes the image, forcibly.
    pub fn new(image_name: &str) -> (r: Self)
        ensures
            r.image_name@ == image_name@,
            r.force,
    {
        DockerRemoveImageCommand { force: true, image_name: image_name.to_owned() }
    }

    /// The program to run: `docker`.
    pub fn program(&self) -> (r: &'static str)
        ensures
            r@ == "docker"@,
    {
        "docker"
    }

    /// The arguments: `rmi`, the image, and `--force` where set.
    pub fn args(&self) -> (r: Vec<String>)
        ensures
            strings(r@) == seq!["rmi"@, self.image_name@] + flag_arg(self.force, "--force"@),
    {
        let mut v: Vec<String> = Vec::new();
        push_string(&mut v, "rmi");
        push_string(&mut v, self.image_name.as_str());
        push_flag(&mut v, self.force, "--force");
        v
    }
}

/// A `docker volume rm` command.
#[derive(Debug, Clone)]
pub struct DockerRemoveVolumeCommand {
    pub force: bool,
    pub volume_names: Vec<String>,
}

impl DockerRemoveVolumeCommand {
    /// A command that removes the volumes, forcibly.
    pub fn new(volume_names: &[&str]) -> (r: Self)
        ensures
            strings(r.volume_names@) == volume_names@.map_values(|s: &str| s@),
            r.force,
    {
        DockerRemoveVolumeCommand { force: true, volume_names: to_strings(volume_names) }
    }

    /// The program to run: `docker`.
    pub fn program(&self) -> (r: &'static str)
        ensures
            r@ == "docker"@,
    {
        "docker"
    }

    /// The arguments: `volume rm`, `--force` where set, and the volumes.
    pub fn args(&self) -> (r: Vec<String>)
        ensures
            strings(r@) == seq!["volume"@, "rm"@] + flag_arg(self.force, "--force"@) + strings(
                self.volume_names@,
            ),
    {
        let mut v: Vec<String> = Vec::new();
        push_string(&mut v, "volume");
        push_string(&mut v, "rm");
        push_flag(&mut v, self.force, "--force");
        push_all(&mut v, &self.volume_names);
        v
    }
}

} // verus!
