use vstd::prelude::*;

use crate::paths::{append_to_root, path_join};

verus! {

/// One kernel parameter: `key=value`.
#[derive(Clone, Debug)]
pub struct SysctlEntry {
    key: String,
    value: String,
}

impl View for SysctlEntry {
    type V = (Seq<char>, Seq<char>);

    closed spec fn view(&self) -> (Seq<char>, Seq<char>) {
        (self.key@, self.value@)
    }
}

/// The line of an entry, `key=value`.
pub open spec fn entry_line(e: (Seq<char>, Seq<char>)) -> Seq<char> {
    e.0 + "="@ + e.1
}

/// The lines of `entries`, separated by line feeds.
pub open spec fn joined_lines(entries: Seq<(Seq<char>, Seq<char>)>) -> Seq<char>
    decreases entries.len(),
{
    if entries.len() == 0 {
        seq![]
    } else if entries.len() == 1 {
        entry_line(entries[0])
    } else {
        joined_lines(entries.drop_last()) + "\n"@ + entry_line(entries.last())
    }
}

impl SysctlEntry {
    pub fn new(key: &str, value: &str) -> (r: SysctlEntry)
        ensures
            r@ == (key@, value@),
    {
        SysctlEntry { key: String::from_str(key), value: String::from_str(value) }
    }

    /// A copy of this entry.
    pub fn duplicate(&self) -> (r: SysctlEntry)
        ensures
            r@ == self@,
    {
        SysctlEntry { key: self.key.clone(), value: self.value.clone() }
    }

    /// The entry as a drop-in line, `key=value`.
    pub fn write_to_string(&self) -> (r: String)
        ensures
            r@ == entry_line(self@),
    {
        let mut s = self.key.clone();
        s.append("=");
        s.append(self.value.as_str());
        s
    }
}

/// The drop-in directory does not exist or is not a directory.
#[derive(Clone, Debug)]
pub struct SysctlDropInError {
    path: String,
}

impl SysctlDropInError {
    fn new(path: String) -> (r: SysctlDropInError)
        ensures
            r.path() == path@,
    {
        SysctlDropInError { path }
    }

    pub closed spec fn path(&self) -> Seq<char> {
        self.path@
    }

    /// The directory that was refused.
    pub fn drop_in_path(&self) -> (r: String)
        ensures
            r@ == self.path(),
    {
        self.path.clone()
    }

    /// A sentence that says what is wrong.
    pub fn message(&self) -> (r: String)
        ensures
            r@ == self.path()
                + " is not a valid sysctl drop in directory, the path must be a directory and exist"@,
    {
        let mut s = self.path.clone();
        s.append(" is not a valid sysctl drop in directory, the path must be a directory and exist");
        s
    }
}

/// Why the kernel parameters could not be written.
#[derive(Clone, Debug)]
pub enum SysctlErr {
    DropInError(SysctlDropInError),
    /// Writing the drop-in file failed, with the system's text.
    IoError(String),
}

pub open spec fn sysctl_dir() -> Seq<char> {
    "/etc/sysctl.d/"@
}

/// Kernel parameters bound for one drop-in file under `/etc/sysctl.d/`.
pub struct SysctlList {
    sysctls: Vec<SysctlEntry>,
    drop_in_file: String,
}

/// Mathematical model of a [`SysctlList`].
pub struct SysctlListView {
    pub sysctls: Seq<(Seq<char>, Seq<char>)>,
    pub drop_in_file: Seq<char>,
}

impl View for SysctlList {
    type V = SysctlListView;

    closed spec fn view(&self) -> SysctlListView {
        SysctlListView {
            sysctls: self.sysctls@.map_values(|e: SysctlEntry| e@),
            drop_in_file: self.drop_in_file@,
        }
    }
}

impl SysctlList {
    /// Collects `sysctls` for the drop-in file `file_name`, given whether the
    /// drop-in directory `/etc/sysctl.d/` exists as a directory.
    pub fn new(sysctls: &[SysctlEntry], file_name: &str, drop_in_is_dir: bool) -> (r: Result<
        Self,
        SysctlDropInError,
    >)
        ensures
            r is Ok <==> drop_in_is_dir,
            r matches Ok(l) ==> l@.sysctls == sysctls@.map_values(|e: SysctlEntry| e@)
                && l@.drop_in_file == path_join(sysctl_dir(), file_name@),
            r matches Err(e) ==> e.path() == sysctl_dir(),
    {
        let drop_in = String::from_str("/etc/sysctl.d/");
        if !drop_in_is_dir {
            return Err(SysctlDropInError::new(drop_in));
        }
        let mut copied: Vec<SysctlEntry> = Vec::new();
        let mut i: usize = 0;
        while i < sysctls.len()
            invariant
                i <= sysctls@.len(),
                copied@.map_values(|e: SysctlEntry| e@) == sysctls@.take(i as int).map_values(
                    |e: SysctlEntry| e@,
                ),
            decreases sysctls.len() - i,
        {
            let e = sysctls[i].duplicate();
            let ghost prev = copied@;
            copied.push(e);
            assert(copied@.map_values(|e: SysctlEntry| e@) =~= prev.map_values(|e: SysctlEntry| e@).push(sysctls@[i as int]@));
            assert(sysctls@.take(i + 1) =~= sysctls@.take(i as int).push(sysctls@[i as int]));
            assert(copied@.map_values(|e: SysctlEntry| e@) =~= sysctls@.take(i + 1).map_values(
                |e: SysctlEntry| e@,
            ));
            i = i + 1;
        }
        assert(sysctls@.take(i as int) =~= sysctls@);
        let file = append_to_root(drop_in.as_str(), file_name);
        Ok(SysctlList { sysctls: copied, drop_in_file: file })
    }

    /// The drop-in file the parameters are bound for.
    pub fn drop_in_file(&self) -> (r: String)
        ensures
            r@ == self@.drop_in_file,
    {
        self.drop_in_file.clone()
    }

    /// The content of the drop-in file: one `key=value` line per entry, each
    /// ending in a line feed (a single line feed when there is none).
    pub fn collect_sysctls(&self) -> (r: String)
        ensures
            r@ == joined_lines(self@.sysctls) + "\n"@,
    {
        let mut out = String::new();
        let n = self.sysctls.len();
        let mut i: usize = 0;
        while i < n
            invariant
                i <= n,
                n == self@.sysctls.len(),
                out@ == joined_lines(self@.sysctls.take(i as int)),
            decreases n - i,
        {
            if i > 0 {
                out.append("\n");
            }
            let line = self.sysctls[i].write_to_string();
            out.append(line.as_str());
            proof {
                let s = self@.sysctls;
                assert(s.take(i + 1).drop_last() =~= s.take(i as int));
                assert(s[i as int] == self.sysctls@[i as int]@);
                if i == 0 {
                    assert(out@ =~= entry_line(s.take(1)[0]));
                }
            }
            i = i + 1;
        }
        assert(self@.sysctls.take(n as int) =~= self@.sysctls);
        out.append("\n");
        out
    }
}

/// Configuration of the mounted image beyond its storage. Kernel
/// parameters, packages and users are written by their own collaborators.
pub fn configure_image() {
}

} // verus!
