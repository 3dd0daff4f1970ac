use vstd::prelude::*;

verus! {

/// A running process as seen in one enumeration of the process table.
#[derive(Debug)]
pub struct ProcessInfo {
    pub name: String,
    pub pid: u32,
}

pub struct ProcessInfoView {
    pub name: Seq<char>,
    pub pid: u32,
}

impl View for ProcessInfo {
    type V = ProcessInfoView;

    open spec fn view(&self) -> ProcessInfoView {
        ProcessInfoView { name: self.name@, pid: self.pid }
    }
}

pub open spec fn procs_view(s: Seq<ProcessInfo>) -> Seq<ProcessInfoView> {
    s.map_values(|p: ProcessInfo| p@)
}

impl Clone for ProcessInfo {
    fn clone(&self) -> (r: Self)
        ensures
            r == *self,
    {
        ProcessInfo { name: self.name.clone(), pid: self.pid }
    }
}

impl ProcessInfo {
    pub fn new(name: &str, pid: u32) -> (r: Self)
        ensures
            r@ == (ProcessInfoView { name: name@, pid }),
    {
        ProcessInfo { name: name.to_owned(), pid }
    }
}

/// Whether a process named `name` is in the snapshot `s`.
pub open spec fn proc_listed(s: Seq<ProcessInfoView>, name: Seq<char>) -> bool {
    exists|i: int| 0 <= i < s.len() && #[trigger] s[i].name == name
}

/// Whether a process named `name` is in the snapshot `procs`.
pub fn is_proc_listed(procs: &Vec<ProcessInfo>, name: &String) -> (r: bool)
    ensures
        r == proc_listed(procs_view(procs@), name@),
{
    let ghost pv = procs_view(procs@);
    let mut i: usize = 0;
    while i < procs.len()
        invariant
            0 <= i <= procs.len(),
            pv == procs_view(procs@),
            forall|j: int| 0 <= j < i ==> #[trigger] pv[j].name != name@,
        decreases procs.len() - i,
    {
        if procs[i].name == *name {
            assert(pv[i as int].name == name@);
            return true;
        }
        i = i + 1;
    }
    false
}

} // verus!
