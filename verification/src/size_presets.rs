//! Target output sizes offered to the user, as a closed set of presets.

use vstd::prelude::*;

verus! {

/// A target output size preset, in whole megabytes.
#[derive(Debug, Clone, Copy, PartialEq, Eq, Structural)]
pub enum TargetSize {
    Size1MB,
    Size5MB,
    Size10MB,
    Size30MB,
    Size50MB,
    Size100MB,
    Size250MB,
    Size500MB,
    Size1000MB,
}

pub open spec fn spec_target_mb(t: TargetSize) -> u32 {
    match t {
        TargetSize::Size1MB => 1,
        TargetSize::Size5MB => 5,
        TargetSize::Size10MB => 10,
        TargetSize::Size30MB => 30,
        TargetSize::Size50MB => 50,
        TargetSize::Size100MB => 100,
        TargetSize::Size250MB => 250,
        TargetSize::Size500MB => 500,
        TargetSize::Size1000MB => 1000,
    }
}

/// The presets in ascending size order.
pub open spec fn spec_all_presets() -> Seq<TargetSize> {
    seq![
        TargetSize::Size1MB,
        TargetSize::Size5MB,
        TargetSize::Size10MB,
        TargetSize::Size30MB,
        TargetSize::Size50MB,
        TargetSize::Size100MB,
        TargetSize::Size250MB,
        TargetSize::Size500MB,
        TargetSize::Size1000MB,
    ]
}

pub fn all_presets() -> (v: Vec<TargetSize>)
    ensures
        v@ == spec_all_presets(),
{
    let mut v: Vec<TargetSize> = Vec::new();
    v.push(TargetSize::Size1MB);
    v.push(TargetSize::Size5MB);
    v.push(TargetSize::Size10MB);
    v.push(TargetSize::Size30MB);
    v.push(TargetSize::Size50MB);
    v.push(TargetSize::Size100MB);
    v.push(TargetSize::Size250MB);
    v.push(TargetSize::Size500MB);
    v.push(TargetSize::Size1000MB);
    proof {
        assert(v@ =~= spec_all_presets());
    }
    v
}

/// Index of a preset within `spec_all_presets`.
pub open spec fn spec_preset_index(t: TargetSize) -> int {
    match t {
        TargetSize::Size1MB => 0,
        TargetSize::Size5MB => 1,
        TargetSize::Size10MB => 2,
        TargetSize::Size30MB => 3,
        TargetSize::Size50MB => 4,
        TargetSize::Size100MB => 5,
        TargetSize::Size250MB => 6,
        TargetSize::Size500MB => 7,
        TargetSize::Size1000MB => 8,
    }
}

/// The preset closest to a requested size in megabytes, by fixed bands.
pub open spec fn spec_preset_from_mb(mb: u32) -> TargetSize {
    if mb <= 3 {
        TargetSize::Size1MB
    } else if mb <= 7 {
        TargetSize::Size5MB
    } else if mb <= 20 {
        TargetSize::Size10MB
    } else if mb <= 40 {
        TargetSize::Size30MB
    } else if mb <= 75 {
        TargetSize::Size50MB
    } else if mb <= 175 {
        TargetSize::Size100MB
    } else if mb <= 375 {
        TargetSize::Size250MB
    } else if mb <= 750 {
        TargetSize::Size500MB
    } else {
        TargetSize::Size1000MB
    }
}

pub open spec fn spec_preset_display_name(t: TargetSize) -> Seq<char> {
    match t {
        TargetSize::Size1MB => "1 MB - Ultra Small"@,
        TargetSize::Size5MB => "5 MB - Small"@,
        TargetSize::Size10MB => "10 MB - Compact"@,
        TargetSize::Size30MB => "30 MB - Medium"@,
        TargetSize::Size50MB => "50 MB - Standard"@,
        TargetSize::Size100MB => "100 MB - Large"@,
        TargetSize::Size250MB => "250 MB - Extra Large"@,
        TargetSize::Size500MB => "500 MB - HD Quality"@,
        TargetSize::Size1000MB => "1 GB - Full Quality"@,
    }
}

pub open spec fn spec_preset_use_case(t: TargetSize) -> Seq<char> {
    match t {
        TargetSize::Size1MB => "Social media, messaging"@,
        TargetSize::Size5MB => "Email attachments"@,
        TargetSize::Size10MB => "Quick sharing"@,
        TargetSize::Size30MB => "Presentations, demos"@,
        TargetSize::Size50MB => "General purpose"@,
        TargetSize::Size100MB => "HD streaming"@,
        TargetSize::Size250MB => "High quality sharing"@,
        TargetSize::Size500MB => "Professional use"@,
        TargetSize::Size1000MB => "Archive quality"@,
    }
}

impl TargetSize {
    /// The preset's size in whole megabytes.
    pub fn as_mb(&self) -> (r: u32)
        ensures
            r == spec_target_mb(*self),
            r >= 1,
    {
        match self {
            TargetSize::Size1MB => 1,
            TargetSize::Size5MB => 5,
            TargetSize::Size10MB => 10,
            TargetSize::Size30MB => 30,
            TargetSize::Size50MB => 50,
            TargetSize::Size100MB => 100,
            TargetSize::Size250MB => 250,
            TargetSize::Size500MB => 500,
            TargetSize::Size1000MB => 1000,
        }
    }

    /// The closest preset for a requested size in megabytes.
    pub fn from_mb(mb: u32) -> (r: TargetSize)
        ensures
            r == spec_preset_from_mb(mb),
    {
        if mb <= 3 {
            TargetSize::Size1MB
        } else if mb <= 7 {
            TargetSize::Size5MB
        } else if mb <= 20 {
            TargetSize::Size10MB
        } else if mb <= 40 {
            TargetSize::Size30MB
        } else if mb <= 75 {
            TargetSize::Size50MB
        } else if mb <= 175 {
            TargetSize::Size100MB
        } else if mb <= 375 {
            TargetSize::Size250MB
        } else if mb <= 750 {
            TargetSize::Size500MB
        } else {
            TargetSize::Size1000MB
        }
    }

    /// The preset at a position of the ascending list.
    pub fn from_index(index: usize) -> (r: Option<TargetSize>)
        ensures
            index < 9 ==> r == Some(spec_all_presets()[index as int]),
            index >= 9 ==> r is None,
    {
        let all = all_presets();
        if index < all.len() {
            Some(all[index])
        } else {
            None
        }
    }

    /// The position of this preset in the ascending list.
    pub fn to_index(&self) -> (r: usize)
        ensures
            r == spec_preset_index(*self),
            spec_all_presets()[r as int] == *self,
    {
        match self {
            TargetSize::Size1MB => 0,
            TargetSize::Size5MB => 1,
            TargetSize::Size10MB => 2,
            TargetSize::Size30MB => 3,
            TargetSize::Size50MB => 4,
            TargetSize::Size100MB => 5,
            TargetSize::Size250MB => 6,
            TargetSize::Size500MB => 7,
            TargetSize::Size1000MB => 8,
        }
    }

    pub fn display_name(&self) -> (r: &'static str)
        ensures
            r@ == spec_preset_display_name(*self),
    {
        match self {
            TargetSize::Size1MB => "1 MB - Ultra Small",
            TargetSize::Size5MB => "5 MB - Small",
            TargetSize::Size10MB => "10 MB - Compact",
            TargetSize::Size30MB => "30 MB - Medium",
            TargetSize::Size50MB => "50 MB - Standard",
            TargetSize::Size100MB => "100 MB - Large",
            TargetSize::Size250MB => "250 MB - Extra Large",
            TargetSize::Size500MB => "500 MB - HD Quality",
            TargetSize::Size1000MB => "1 GB - Full Quality",
        }
    }

    /// The typical use case for this size preset.
    pub fn use_case(&self) -> (r: &'static str)
        ensures
            r@ == spec_preset_use_case(*self),
    {
        match self {
            TargetSize::Size1MB => "Social media, messaging",
            TargetSize::Size5MB => "Email attachments",
            TargetSize::Size10MB => "Quick sharing",
            TargetSize::Size30MB => "Presentations, demos",
            TargetSize::Size50MB => "General purpose",
            TargetSize::Size100MB => "HD streaming",
            TargetSize::Size250MB => "High quality sharing",
            TargetSize::Size500MB => "Professional use",
            TargetSize::Size1000MB => "Archive quality",
        }
    }
}

} // verus!
