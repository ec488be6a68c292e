//! Installer modules.
//!
//! Installer modules live as script files in the modules directory; only
//! files with the script extension count. A driver reads the directory
//! and the files; the filtering decision is verified here.

use vstd::prelude::*;
use crate::strutil::{ends_with_seq, str_ends_with};

verus! {

/// One installable flavor a module offers: its display name and its icon
/// image bytes.
#[derive(Debug)]
pub struct Installer {
    pub name: String,
    pub icon_svg: Vec<u8>,
}

/// Is this file an installer module, judged by its extension?
pub fn is_installer_module(path: &str) -> (r: bool)
    ensures
        r == ends_with_seq(path@, ".lua"@),
{
    str_ends_with(path, ".lua")
}

} // verus!
