//! The kernel panel: the active version and download state, and the list
//! of versions that can be had.

use vstd::prelude::*;
use crate::app::App;
use crate::text::{concat, owned, str_eq, str_is_empty};
use crate::utils::format::{pad_or_truncate, pad_or_truncate_spec};

verus! {

/// The figures at the top of the kernel panel.
#[derive(Debug)]
pub struct KernelInfo {
    /// The active version, or `Not installed`.
    pub active_version: String,
    /// `Downloading…` during a download, else `Ready`.
    pub status: String,
    pub downloading: bool,
}

/// One line of the version list.
#[derive(Debug)]
pub struct VersionLine {
    pub text: String,
    /// Whether the line is the selected one.
    pub selected: bool,
    /// Whether the version is the active one.
    pub active: bool,
}

/// The version list: a notice when no version is known, else one line per
/// version.
#[derive(Debug)]
pub struct VersionList {
    pub notice: Option<String>,
    pub lines: Vec<VersionLine>,
}

/// The line of a version `width` columns wide: `●` for the active version.
pub open spec fn version_line_text(version: Seq<char>, active: bool, width: nat) -> Seq<char> {
    pad_or_truncate_spec(" "@ + (if active { "\u{25cf}"@ } else { " "@ }) + " "@ + version, width)
}

impl App {
    /// The figures at the top of the kernel panel.
    pub fn kernel_info(&self) -> (k: KernelInfo)
        ensures
            k.active_version@ == (if self.kernel.current_version@.len() == 0 {
                "Not installed"@
            } else {
                self.kernel.current_version@
            }),
            k.status@ == (if self.kernel.downloading { "Downloading\u{2026}"@ } else { "Ready"@ }),
            k.downloading == self.kernel.downloading,
    {
        let active_version = if str_is_empty(self.kernel.current_version.as_str()) {
            owned("Not installed")
        } else {
            owned(self.kernel.current_version.as_str())
        };
        let status = if self.kernel.downloading { owned("Downloading\u{2026}") } else { owned("Ready") };
        KernelInfo { active_version, status, downloading: self.kernel.downloading }
    }

    /// The version list, each line `width` columns wide.
    pub fn version_list(&self, width: u16) -> (l: VersionList)
        ensures
            l.notice is Some <==> self.kernel.available_versions@.len() == 0,
            l.notice matches Some(m) ==> m@ == "No versions available"@,
            l.lines@.len() == self.kernel.available_versions@.len(),
            forall|i: int| 0 <= i < l.lines@.len() ==> {
                let v = self.kernel.available_versions@[i]@;
                let active = v == self.kernel.current_version@;
                &&& (#[trigger] l.lines@[i]).text@ == version_line_text(v, active, width as nat)
                &&& l.lines@[i].selected == (i == self.kernel.selected)
                &&& l.lines@[i].active == active
            },
    {
        let versions = &self.kernel.available_versions;
        let n = versions.len();
        let mut lines: Vec<VersionLine> = Vec::new();
        let mut i: usize = 0;
        while i < n
            invariant
                n == versions@.len(),
                versions == &self.kernel.available_versions,
                i <= n,
                lines@.len() == i,
                forall|j: int| 0 <= j < i ==> {
                    let v = versions@[j]@;
                    let active = v == self.kernel.current_version@;
                    &&& (#[trigger] lines@[j]).text@ == version_line_text(v, active, width as nat)
                    &&& lines@[j].selected == (j == self.kernel.selected)
                    &&& lines@[j].active == active
                },
            decreases n - i,
        {
            let v = versions[i].as_str();
            let active = str_eq(v, self.kernel.current_version.as_str());
            let a = concat(" ", if active { "\u{25cf}" } else { " " });
            let b = concat(a.as_str(), " ");
            let label = concat(b.as_str(), v);
            lines.push(VersionLine {
                text: pad_or_truncate(label.as_str(), width as usize),
                selected: i == self.kernel.selected,
                active,
            });
            i = i + 1;
        }
        let notice = if n == 0 { Some(owned("No versions available")) } else { None };
        VersionList { notice, lines }
    }
}

} // verus!
