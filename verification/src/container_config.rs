//! The configuration a container is started with.
use crate::args::strings;
use crate::docker::opt_view;
use crate::ports::{insert_port, lemma_insert_port_twice};
use crate::sorted::{lookup, StringMap};
use std::collections::BTreeSet;
use vstd::prelude::*;

verus! {

/// The configuration a container is started with: by default it runs the default process
/// type of the image, with no extra environment, ports or volumes.
#[derive(Debug)]
pub struct ContainerConfig {
    pub entrypoint: Option<String>,
    pub command: Option<Vec<String>>,
    pub env: StringMap,
    pub exposed_ports: BTreeSet<u16>,
    pub volumes: StringMap,
}

impl Clone for ContainerConfig {
    fn clone(&self) -> (r: Self)
        ensures
            opt_view(r.entrypoint) == opt_view(self.entrypoint),
            crate::docker::opt_strings(r.command) == crate::docker::opt_strings(self.command),
            r.command is Some <==> self.command is Some,
            r.env@ == self.env@,
            r.exposed_ports@ == self.exposed_ports@,
            r.volumes@ == self.volumes@,
    {
        let entrypoint = match &self.entrypoint {
            Some(e) => Some(e.clone()),
            None => None,
        };
        let command = match &self.command {
            Some(c) => Some(crate::test_context::clone_strings(c)),
            None => None,
        };
        ContainerConfig {
            entrypoint,
            command,
            env: self.env.clone(),
            exposed_ports: self.exposed_ports.clone(),
            volumes: self.volumes.clone(),
        }
    }
}

/// Exposing a port twice is exposing it once: the ports that
/// [`ContainerConfig::expose_port`] leaves after exposing `port` to `ports`, and exposing it
/// again, are the ports it leaves after exposing it once.
pub proof fn lemma_expose_port_twice(ports: Set<u16>, port: u16)
    ensures
        ports.insert(port).insert(port) == ports.insert(port),
{
    lemma_insert_port_twice(ports, port);
}

impl ContainerConfig {
    /// An empty configuration.
    pub fn new() -> (r: Self)
        ensures
            r.entrypoint is None,
            r.command is None,
            r.env@.len() == 0,
            r.exposed_ports@ == Set::<u16>::empty(),
            r.volumes@.len() == 0,
    {
        ContainerConfig {
            entrypoint: None,
            command: None,
            env: StringMap::new(),
            exposed_ports: BTreeSet::new(),
            volumes: StringMap::new(),
        }
    }

    /// Overrides the entrypoint of the image.
    pub fn entrypoint(&mut self, entrypoint: &str) -> (r: &mut Self)
        ensures
            *final(self) == *final(r),
            opt_view(r.entrypoint) == Some(entrypoint@),
            r.command == old(self).command,
            r.env@ == old(self).env@,
            r.exposed_ports@ == old(self).exposed_ports@,
            r.volumes@ == old(self).volumes@,
    {
        self.entrypoint = Some(entrypoint.to_owned());
        self
    }

    /// Sets the command of the container.
    pub fn command(&mut self, command: &[&str]) -> (r: &mut Self)
        ensures
            *final(self) == *final(r),
            r.command matches Some(c) && strings(c@) == command@.map_values(|s: &str| s@),
            r.entrypoint == old(self).entrypoint,
            r.env@ == old(self).env@,
            r.exposed_ports@ == old(self).exposed_ports@,
            r.volumes@ == old(self).volumes@,
    {
        self.command = Some(crate::args::to_strings(command));
        self
    }

    /// Exposes a port of the container on a random port of the host.
    pub fn expose_port(&mut self, port: u16) -> (r: &mut Self)
        ensures
            *final(self) == *final(r),
            r.exposed_ports@ == old(self).exposed_ports@.insert(port),
            r.entrypoint == old(self).entrypoint,
            r.command == old(self).command,
            r.env@ == old(self).env@,
            r.volumes@ == old(self).volumes@,
    {
        insert_port(&mut self.exposed_ports, port);
        self
    }

    /// Inserts or updates an environment variable of the container.
    pub fn env(&mut self, key: &str, value: &str) -> (r: &mut Self)
        ensures
            *final(self) == *final(r),
            forall|k: Seq<char>|
                lookup(r.env@, k) == if k == key@ {
                    Some(value@)
                } else {
                    lookup(old(self).env@, k)
                },
            r.entrypoint == old(self).entrypoint,
            r.command == old(self).command,
            r.exposed_ports@ == old(self).exposed_ports@,
            r.volumes@ == old(self).volumes@,
    {
        self.env.insert(key.to_owned(), value.to_owned());
        self
    }

    /// Mounts `source` of the host at `destination` in the container.
    pub fn volume(&mut self, source: &str, destination: &str) -> (r: &mut Self)
        ensures
            *final(self) == *final(r),
            forall|k: Seq<char>|
                lookup(r.volumes@, k) == if k == source@ {
                    Some(destination@)
                } else {
                    lookup(old(self).volumes@, k)
                },
            r.entrypoint == old(self).entrypoint,
            r.command == old(self).command,
            r.env@ == old(self).env@,
            r.exposed_ports@ == old(self).exposed_ports@,
    {
        self.volumes.insert(source.to_owned(), destination.to_owned());
        self
    }

    /// Inserts or updates several environment variables, in order: where a key comes twice,
    /// the later value stays.
    pub fn envs(&mut self, envs: &[(&str, &str)]) -> (r: &mut Self)
        ensures
            *final(self) == *final(r),
            forall|k: Seq<char>|
                lookup(r.env@, k) == updated_lookup(old(self).env@, envs@, k),
            r.entrypoint == old(self).entrypoint,
            r.command == old(self).command,
            r.exposed_ports@ == old(self).exposed_ports@,
            r.volumes@ == old(self).volumes@,
    {
        let mut i: usize = 0;
        while i < envs.len()
            invariant
                0 <= i <= envs@.len(),
                self.entrypoint == old(self).entrypoint,
                self.command == old(self).command,
                self.exposed_ports@ == old(self).exposed_ports@,
                self.volumes@ == old(self).volumes@,
                forall|k: Seq<char>| lookup(self.env@, k) == updated_lookup(old(self).env@, envs@.take(i as int), k),
            decreases envs@.len() - i,
        {
            let (key, value) = envs[i];
            self.env(key, value);
            proof {
                assert(envs@.take(i + 1).drop_last() =~= envs@.take(i as int));
            }
            i += 1;
        }
        assert(envs@.take(envs@.len() as int) =~= envs@);
        self
    }
}

/// The value of `k` after the entries of `updates` are set in turn, starting from `entries`.
pub open spec fn updated_lookup(
    entries: Seq<(Seq<char>, Seq<char>)>,
    updates: Seq<(&str, &str)>,
    k: Seq<char>,
) -> Option<Seq<char>>
    decreases updates.len(),
{
    if updates.len() == 0 {
        lookup(entries, k)
    } else if updates.last().0@ == k {
        Some(updates.last().1@)
    } else {
        updated_lookup(entries, updates.drop_last(), k)
    }
}

} // verus!
