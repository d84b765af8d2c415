//! Reporting on the durable progress store.  Reading and writing the
//! data files is the shell's concern; this module renders the statistics
//! it gathers about them.

use vstd::prelude::*;
use crate::text::{spec_digits, u64_to_string};

verus! {

/// Sizes and paths of the progress store's files.
#[derive(Debug)]
pub struct StorageStats {
    pub data_path: String,
    pub data_size_bytes: u64,
    pub backup_size_bytes: u64,
    pub has_backup: bool,
}

/// The report a storage statistics value renders to.
pub open spec fn spec_storage_report(s: StorageStats) -> Seq<char> {
    "Data file: \""@ + s.data_path@ + "\"\nData size: "@ + spec_digits(s.data_size_bytes as int)
        + " bytes\nBackup size: "@ + spec_digits(s.backup_size_bytes as int)
        + " bytes\nHas backup: "@ + (if s.has_backup {
        "true"@
    } else {
        "false"@
    })
}

impl StorageStats {
    /// Renders the statistics as a short multi-line report.
    pub fn format(&self) -> (r: String)
        ensures
            r@ == spec_storage_report(*self),
    {
        let mut s = String::from_str("Data file: \"");
        s.append(self.data_path.as_str());
        s.append("\"\nData size: ");
        let d = u64_to_string(self.data_size_bytes);
        s.append(d.as_str());
        s.append(" bytes\nBackup size: ");
        let b = u64_to_string(self.backup_size_bytes);
        s.append(b.as_str());
        s.append(" bytes\nHas backup: ");
        if self.has_backup {
            s.append("true");
        } else {
            s.append("false");
        }
        proof {
            assert(s@ =~= spec_storage_report(*self));
        }
        s
    }
}

} // verus!
