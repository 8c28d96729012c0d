//! A container started by a test, and the commands that inspect and remove it.
use crate::args::strings;
use crate::container_config::ContainerConfig;
use crate::docker::{DockerExecCommand, DockerLogsCommand, DockerPortCommand, DockerRemoveContainerCommand};
use crate::util::cnb_launcher_binary;
use vstd::prelude::*;

verus! {

/// A container started by a test: its random name and the configuration it was started with.
#[derive(Debug)]
pub struct ContainerContext {
    pub container_name: String,
    pub config: ContainerConfig,
}

impl ContainerContext {
    /// The command that prints the logs of the container so far.
    pub fn logs_now(&self) -> (r: DockerLogsCommand)
        ensures
            r.container_name@ == self.container_name@,
            !r.follow,
    {
        DockerLogsCommand::new(self.container_name.as_str())
    }

    /// The command that prints the logs of the container until it stops.
    pub fn logs_wait(&self) -> (r: DockerLogsCommand)
        ensures
            r.container_name@ == self.container_name@,
            r.follow,
    {
        let mut command = DockerLogsCommand::new(self.container_name.as_str());
        command.follow(true);
        command
    }

    /// The command that finds the host address of an exposed port. The port must have been
    /// exposed by the configuration.
    pub fn address_for_port(&self, port: u16) -> (r: DockerPortCommand)
        requires
            self.config.exposed_ports@.contains(port),
        ensures
            r.container_name@ == self.container_name@,
            r.port == port,
    {
        DockerPortCommand::new(self.container_name.as_str(), port)
    }

    /// The command that runs a shell command in the container through the CNB launcher.
    pub fn shell_exec(&self, command: &str) -> (r: DockerExecCommand)
        ensures
            r.container_name@ == self.container_name@,
            strings(r.command@) == seq!["launcher"@, command@],
    {
        let launcher = cnb_launcher_binary();
        let parts = [launcher, command];
        let r = DockerExecCommand::new(self.container_name.as_str(), &parts);
        assert(parts@.map_values(|s: &str| s@) =~= seq!["launcher"@, command@]);
        r
    }

    /// The command that removes the container.
    pub fn remove_command(&self) -> (r: DockerRemoveContainerCommand)
        ensures
            r.container_name@ == self.container_name@,
            r.force,
    {
        DockerRemoveContainerCommand::new(self.container_name.as_str())
    }
}

} // verus!
