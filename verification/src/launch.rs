//! Processes, labels and slices of the launch configuration (launch.toml).
use crate::text::{is_alnum, push_str, str_chars};
use vstd::prelude::*;

verus! {

/// A character allowed in a process type: a letter, a digit, `.`, `_` or `-`.
pub open spec fn is_process_type_char(c: char) -> bool {
    is_alnum(c) || c == '.' || c == '_' || c == '-'
}

/// A valid process type: one or more of the allowed characters.
pub open spec fn valid_process_type(s: Seq<char>) -> bool {
    &&& s.len() > 0
    &&& forall|i: int| 0 <= i < s.len() ==> #[trigger] is_process_type_char(s[i])
}

/// Whether `value` is a valid process type.
pub fn is_valid_process_type(value: &str) -> (r: bool)
    ensures
        r == valid_process_type(value@),
{
    let cs = str_chars(value);
    if cs.len() == 0 {
        return false;
    }
    let mut i: usize = 0;
    while i < cs.len()
        invariant
            0 <= i <= cs.len(),
            cs@ == value@,
            forall|k: int| 0 <= k < i ==> #[trigger] is_process_type_char(cs@[k]),
        decreases cs.len() - i,
    {
        let c = cs[i];
        if !(('0' <= c && c <= '9') || ('a' <= c && c <= 'z') || ('A' <= c && c <= 'Z') || c == '.'
            || c == '_' || c == '-') {
            assert(!is_process_type_char(cs@[i as int]));
            return false;
        }
        i += 1;
    }
    true
}

/// The type of a process.
///
/// It MUST only contain numbers, letters, and the characters `.`, `_`, and `-`.
#[derive(Debug, PartialEq, Eq, Hash, PartialOrd, Ord)]
pub struct ProcessType(String);

/// The error of parsing a [`ProcessType`]: the rejected value.
#[derive(Debug, Clone, PartialEq, Eq)]
pub enum ProcessTypeError {
    InvalidValue(String),
}

impl View for ProcessType {
    type V = Seq<char>;

    closed spec fn view(&self) -> Seq<char> {
        self.0@
    }
}

impl Clone for ProcessType {
    fn clone(&self) -> (r: Self)
        ensures
            r@ == self@,
    {
        proof {
            use_type_invariant(self);
        }
        ProcessType(self.0.clone())
    }
}

impl ProcessType {
    #[verifier::type_invariant]
    spec fn well_formed(&self) -> bool {
        valid_process_type(self.0@)
    }

    /// Parses a process type, accepting exactly the valid ones.
    pub fn from_str(value: &str) -> (r: Result<ProcessType, ProcessTypeError>)
        ensures
            valid_process_type(value@) <==> r is Ok,
            r matches Ok(t) ==> t@ == value@,
            r matches Err(ProcessTypeError::InvalidValue(v)) ==> v@ == value@,
    {
        if is_valid_process_type(value) {
            Ok(ProcessType(value.to_owned()))
        } else {
            Err(ProcessTypeError::InvalidValue(value.to_owned()))
        }
    }

    /// The process type as a string slice.
    pub fn as_str(&self) -> (r: &str)
        ensures
            r@ == self@,
            valid_process_type(self@),
    {
        proof {
            use_type_invariant(self);
        }
        self.0.as_str()
    }
}

impl ProcessTypeError {
    /// The message of this error: `Invalid Value: <value>`.
    pub fn to_string(&self) -> (r: String)
        ensures
            r@ == (match self {
                ProcessTypeError::InvalidValue(v) => "Invalid Value: "@ + v@,
            }),
    {
        match self {
            ProcessTypeError::InvalidValue(v) => {
                let mut s = String::new();
                push_str(&mut s, "Invalid Value: ");
                push_str(&mut s, v.as_str());
                s
            },
        }
    }
}

/// A label of the launch configuration.
#[derive(Debug, Clone, PartialEq, Eq)]
pub struct Label {
    pub key: String,
    pub value: String,
}

/// A process of the launch configuration.
#[derive(Debug, Clone, PartialEq, Eq)]
pub struct Process {
    pub process_type: ProcessType,
    pub command: String,
    pub args: Vec<String>,
    pub direct: bool,
    pub default: bool,
}

/// A slice of the application directory, described by path globs.
#[derive(Debug, Clone, PartialEq, Eq)]
pub struct Slice {
    /// Path globs for this slice.
    pub path_globs: Vec<String>,
}

/// The plain contents of a [`Process`]: its type, command, arguments and flags.
pub struct ProcessView {
    pub process_type: Seq<char>,
    pub command: Seq<char>,
    pub args: Seq<Seq<char>>,
    pub direct: bool,
    pub default: bool,
}

impl View for Process {
    type V = ProcessView;

    open spec fn view(&self) -> ProcessView {
        ProcessView {
            process_type: self.process_type@,
            command: self.command@,
            args: self.args@.map_values(|a: String| a@),
            direct: self.direct,
            default: self.default,
        }
    }
}

/// A non-consuming builder for [`Process`] values.
pub struct ProcessBuilder {
    process: Process,
}

impl View for ProcessBuilder {
    type V = ProcessView;

    closed spec fn view(&self) -> ProcessView {
        self.process@
    }
}

/// Clones a list of strings.
fn clone_strings(v: &Vec<String>) -> (r: Vec<String>)
    ensures
        r@.map_values(|a: String| a@) == v@.map_values(|a: String| a@),
{
    let mut r: Vec<String> = Vec::new();
    let mut i: usize = 0;
    while i < v.len()
        invariant
            0 <= i <= v.len(),
            r@ == v@.take(i as int),
        decreases v.len() - i,
    {
        r.push(v[i].clone());
        i += 1;
        assert(r@ =~= v@.take(i as int));
    }
    assert(v@.take(v.len() as int) == v@);
    r
}

impl ProcessBuilder {
    /// A builder for a process with the given type and command, no arguments, and both
    /// `direct` and `default` unset.
    pub fn new(process_type: ProcessType, command: &str) -> (r: Self)
        ensures
            r@ == (ProcessView {
                process_type: process_type@,
                command: command@,
                args: Seq::empty(),
                direct: false,
                default: false,
            }),
    {
        let r = ProcessBuilder {
            process: Process {
                process_type,
                command: command.to_owned(),
                args: Vec::new(),
                direct: false,
                default: false,
            },
        };
        assert(r.process.args@.map_values(|a: String| a@) =~= Seq::<Seq<char>>::empty());
        r
    }

    /// Adds an argument to the process.
    pub fn arg(&mut self, arg: &str) -> (r: &mut Self)
        ensures
            final(self)@ == final(r)@,
            r@ == (ProcessView { args: old(self)@.args.push(arg@), ..old(self)@ }),
    {
        self.process.args.push(arg.to_owned());
        assert(self.process.args@.map_values(|a: String| a@) =~= old(self)@.args.push(arg@));
        self
    }

    /// Adds several arguments to the process, in order.
    pub fn args(&mut self, args: Vec<&str>) -> (r: &mut Self)
        ensures
            final(self)@ == final(r)@,
            r@ == (ProcessView {
                args: old(self)@.args + args@.map_values(|a: &str| a@),
                ..old(self)@
            }),
    {
        let ghost start = self.process.args@;
        let mut i: usize = 0;
        while i < args.len()
            invariant
                0 <= i <= args.len(),
                self.process.process_type == old(self).process.process_type,
                self.process.command == old(self).process.command,
                self.process.direct == old(self).process.direct,
                self.process.default == old(self).process.default,
                start == old(self).process.args@,
                self.process.args@.len() == start.len() + i,
                forall|k: int| 0 <= k < start.len() ==> self.process.args@[k] == start[k],
                forall|k: int| 0 <= k < i ==> #[trigger] self.process.args@[start.len() + k]@ == args@[k]@,
            decreases args.len() - i,
        {
            self.process.args.push(args[i].to_owned());
            i += 1;
        }
        let ghost mapped = self.process.args@.map_values(|a: String| a@);
        let ghost target = old(self)@.args + args@.map_values(|a: &str| a@);
        assert forall|k: int| 0 <= k < mapped.len() implies #[trigger] mapped[k] == target[k] by {
            if k >= start.len() {
                assert(self.process.args@[start.len() + (k - start.len())]@ == args@[k - start.len()]@);
            }
        }
        assert(mapped =~= target);
        self
    }

    /// Sets the `direct` flag of the process.
    pub fn direct(&mut self, value: bool) -> (r: &mut Self)
        ensures
            final(self)@ == final(r)@,
            r@ == (ProcessView { direct: value, ..old(self)@ }),
    {
        self.process.direct = value;
        self
    }

    /// Sets the `default` flag of the process.
    pub fn default(&mut self, value: bool) -> (r: &mut Self)
        ensures
            final(self)@ == final(r)@,
            r@ == (ProcessView { default: value, ..old(self)@ }),
    {
        self.process.default = value;
        self
    }

    /// The process configured so far.
    pub fn build(&self) -> (r: Process)
        ensures
            r@ == self@,
    {
        Process {
            process_type: self.process.process_type.clone(),
            command: self.process.command.clone(),
            args: clone_strings(&self.process.args),
            direct: self.process.direct,
            default: self.process.default,
        }
    }
}

/// A copy of a process.
fn clone_process(p: &Process) -> (r: Process)
    ensures
        r@ == p@,
{
    Process {
        process_type: p.process_type.clone(),
        command: p.command.clone(),
        args: clone_strings(&p.args),
        direct: p.direct,
        default: p.default,
    }
}

/// The launch configuration of an image: its labels, processes and slices.
#[derive(Debug)]
pub struct Launch {
    pub labels: Vec<Label>,
    pub processes: Vec<Process>,
    pub slices: Vec<Slice>,
}

/// The plain contents of a launch configuration.
pub open spec fn launch_view(l: Launch) -> (Seq<(Seq<char>, Seq<char>)>, Seq<ProcessView>, Seq<Seq<Seq<char>>>) {
    (
        l.labels@.map_values(|x: Label| (x.key@, x.value@)),
        l.processes@.map_values(|p: Process| p@),
        l.slices@.map_values(|x: Slice| x.path_globs@.map_values(|g: String| g@)),
    )
}

/// A copy of a launch configuration.
fn clone_launch(l: &Launch) -> (r: Launch)
    ensures
        launch_view(r) == launch_view(*l),
{
    let mut labels: Vec<Label> = Vec::new();
    let mut i: usize = 0;
    while i < l.labels.len()
        invariant
            0 <= i <= l.labels@.len(),
            labels@.len() == i,
            forall|j: int| 0 <= j < i ==> (#[trigger] labels@[j]).key@ == l.labels@[j].key@
                && labels@[j].value@ == l.labels@[j].value@,
        decreases l.labels@.len() - i,
    {
        labels.push(Label { key: l.labels[i].key.clone(), value: l.labels[i].value.clone() });
        i += 1;
    }
    let mut processes: Vec<Process> = Vec::new();
    let mut i: usize = 0;
    while i < l.processes.len()
        invariant
            0 <= i <= l.processes@.len(),
            processes@.len() == i,
            forall|j: int| 0 <= j < i ==> (#[trigger] processes@[j])@ == l.processes@[j]@,
        decreases l.processes@.len() - i,
    {
        processes.push(clone_process(&l.processes[i]));
        i += 1;
    }
    let mut slices: Vec<Slice> = Vec::new();
    let mut i: usize = 0;
    while i < l.slices.len()
        invariant
            0 <= i <= l.slices@.len(),
            slices@.len() == i,
            forall|j: int| 0 <= j < i ==> (#[trigger] slices@[j]).path_globs@.map_values(|g: String| g@)
                == l.slices@[j].path_globs@.map_values(|g: String| g@),
        decreases l.slices@.len() - i,
    {
        slices.push(Slice { path_globs: clone_strings(&l.slices[i].path_globs) });
        i += 1;
    }
    let r = Launch { labels, processes, slices };
    assert(launch_view(r).0 =~= launch_view(*l).0);
    assert(launch_view(r).1 =~= launch_view(*l).1);
    assert(launch_view(r).2 =~= launch_view(*l).2);
    r
}

/// A builder of launch configurations.
#[derive(Debug)]
pub struct LaunchBuilder {
    pub launch: Launch,
}

impl LaunchBuilder {
    /// A builder with no labels, processes or slices.
    pub fn new() -> (r: Self)
        ensures
            r.launch.labels@.len() == 0,
            r.launch.processes@.len() == 0,
            r.launch.slices@.len() == 0,
    {
        LaunchBuilder { launch: Launch { labels: Vec::new(), processes: Vec::new(), slices: Vec::new() } }
    }

    /// Adds a process.
    pub fn process(&mut self, process: Process) -> (r: &mut Self)
        ensures
            *final(self) == *final(r),
            r.launch.processes@ == old(self).launch.processes@.push(process),
            r.launch.labels == old(self).launch.labels,
            r.launch.slices == old(self).launch.slices,
    {
        self.launch.processes.push(process);
        self
    }

    /// Adds processes, in order.
    pub fn processes(&mut self, processes: Vec<Process>) -> (r: &mut Self)
        ensures
            *final(self) == *final(r),
            r.launch.processes@ == old(self).launch.processes@ + processes@,
            r.launch.labels == old(self).launch.labels,
            r.launch.slices == old(self).launch.slices,
    {
        let mut rest = processes;
        while rest.len() > 0
            invariant
                self.launch.processes@ + rest@ == old(self).launch.processes@ + processes@,
                self.launch.labels == old(self).launch.labels,
                self.launch.slices == old(self).launch.slices,
            decreases rest@.len(),
        {
            let p = rest.remove(0);
            self.launch.processes.push(p);
            assert(self.launch.processes@ + rest@ =~= old(self).launch.processes@ + processes@);
        }
        assert(self.launch.processes@ =~= old(self).launch.processes@ + processes@);
        self
    }

    /// Adds a label.
    pub fn label(&mut self, label: Label) -> (r: &mut Self)
        ensures
            *final(self) == *final(r),
            r.launch.labels@ == old(self).launch.labels@.push(label),
            r.launch.processes == old(self).launch.processes,
            r.launch.slices == old(self).launch.slices,
    {
        self.launch.labels.push(label);
        self
    }

    /// Adds labels, in order.
    pub fn labels(&mut self, labels: Vec<Label>) -> (r: &mut Self)
        ensures
            *final(self) == *final(r),
            r.launch.labels@ == old(self).launch.labels@ + labels@,
            r.launch.processes == old(self).launch.processes,
            r.launch.slices == old(self).launch.slices,
    {
        let mut rest = labels;
        while rest.len() > 0
            invariant
                self.launch.labels@ + rest@ == old(self).launch.labels@ + labels@,
                self.launch.processes == old(self).launch.processes,
                self.launch.slices == old(self).launch.slices,
            decreases rest@.len(),
        {
            let x = rest.remove(0);
            self.launch.labels.push(x);
            assert(self.launch.labels@ + rest@ =~= old(self).launch.labels@ + labels@);
        }
        assert(self.launch.labels@ =~= old(self).launch.labels@ + labels@);
        self
    }

    /// Adds a slice.
    pub fn slice(&mut self, slice: Slice) -> (r: &mut Self)
        ensures
            *final(self) == *final(r),
            r.launch.slices@ == old(self).launch.slices@.push(slice),
            r.launch.labels == old(self).launch.labels,
            r.launch.processes == old(self).launch.processes,
    {
        self.launch.slices.push(slice);
        self
    }

    /// Adds slices, in order.
    pub fn slices(&mut self, slices: Vec<Slice>) -> (r: &mut Self)
        ensures
            *final(self) == *final(r),
            r.launch.slices@ == old(self).launch.slices@ + slices@,
            r.launch.labels == old(self).launch.labels,
            r.launch.processes == old(self).launch.processes,
    {
        let mut rest = slices;
        while rest.len() > 0
            invariant
                self.launch.slices@ + rest@ == old(self).launch.slices@ + slices@,
                self.launch.labels == old(self).launch.labels,
                self.launch.processes == old(self).launch.processes,
            decreases rest@.len(),
        {
            let x = rest.remove(0);
            self.launch.slices.push(x);
            assert(self.launch.slices@ + rest@ =~= old(self).launch.slices@ + slices@);
        }
        assert(self.launch.slices@ =~= old(self).launch.slices@ + slices@);
        self
    }

    /// The launch configuration built so far.
    pub fn build(&self) -> (r: Launch)
        ensures
            launch_view(r) == launch_view(self.launch),
    {
        clone_launch(&self.launch)
    }
}

} // verus!
