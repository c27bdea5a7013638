use vstd::prelude::*;

verus! {

/// Index of the first entry of `entries` named `name`, if any.
pub open spec fn first_named<T>(entries: Seq<(T, String)>, name: Seq<char>) -> Option<int> {
    if exists|i: int| 0 <= i < entries.len() && entries[i].1@ == name {
        Some(
            choose|i: int|
                0 <= i < entries.len() && entries[i].1@ == name && forall|j: int|
                    0 <= j < i ==> entries[j].1@ != name,
        )
    } else {
        None
    }
}

/// Why no module base could be found.
#[derive(Clone, Copy, Debug, PartialEq, Eq, Structural)]
pub enum ModuleError {
    /// The modules of the process could not be listed.
    EnumerationFailed,
    /// No listed module has the name asked for.
    ModuleNotFound,
}

fn find_first<T: Copy>(entries: &Vec<(T, String)>, name: &String) -> (r: Option<T>)
    ensures
        match first_named(entries@, name@) {
            Some(i) => r == Some(entries@[i].0),
            None => r.is_none(),
        },
{
    let mut i: usize = 0;
    while i < entries.len()
        invariant
            i <= entries.len(),
            forall|j: int| 0 <= j < i ==> entries@[j].1@ != name@,
        decreases entries.len() - i,
    {
        if entries[i].1 == *name {
            proof {
                let k = choose|k: int|
                    0 <= k < entries@.len() && entries@[k].1@ == name@ && forall|j: int|
                        0 <= j < k ==> entries@[j].1@ != name@;
                assert(0 <= i < entries@.len() && entries@[i as int].1@ == name@);
                if k < i {
                } else if k > i {
                    assert(entries@[i as int].1@ != name@);
                }
            }
            return Some(entries[i].0);
        }
        i = i + 1;
    }
    None
}

/// The identifier of the first listed process whose name is exactly
/// `process_name`, or `None` when no such process runs.
pub fn find_process_id(processes: &Vec<(u32, String)>, process_name: &String) -> (r: Option<u32>)
    ensures
        match first_named(processes@, process_name@) {
            Some(i) => r == Some(processes@[i].0),
            None => r.is_none(),
        },
{
    find_first(processes, process_name)
}

/// The load address of the first listed module whose name is exactly
/// `module_name` (case counts).
pub fn find_module_base(modules: &Vec<(usize, String)>, module_name: &String) -> (r: Result<
    usize,
    ModuleError,
>)
    ensures
        match first_named(modules@, module_name@) {
            Some(i) => r == Ok::<usize, ModuleError>(modules@[i].0),
            None => r == Err::<usize, ModuleError>(ModuleError::ModuleNotFound),
        },
{
    match find_first(modules, module_name) {
        Some(b) => Ok(b),
        None => Err(ModuleError::ModuleNotFound),
    }
}

} // verus!
