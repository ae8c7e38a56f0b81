//! Plain command-line option vocabulary and its mapping onto the capability
//! model. Argument parsing itself happens outside the library; these types
//! only carry what was chosen.

use vstd::prelude::*;

use crate::encoders::{HardwareEncoder, HardwarePreset, HardwareQuality};

verus! {

/// Encoder choice as spelled on the command line.
#[derive(Debug, Clone, Copy, PartialEq, Eq, Structural)]
pub enum HardwareEncoderCli {
    NvencH264,
    NvencH265,
    NvencAv1,
    AmfH264,
    AmfH265,
    QsvH264,
    QsvH265,
    QsvAv1,
    Vaapi,
    VideoToolbox,
    Auto,
    Software,
}

pub open spec fn spec_cli_encoder(c: HardwareEncoderCli) -> HardwareEncoder {
    match c {
        HardwareEncoderCli::NvencH264 => HardwareEncoder::NvencH264,
        HardwareEncoderCli::NvencH265 => HardwareEncoder::NvencH265,
        HardwareEncoderCli::NvencAv1 => HardwareEncoder::NvencAV1,
        HardwareEncoderCli::AmfH264 => HardwareEncoder::AmfH264,
        HardwareEncoderCli::AmfH265 => HardwareEncoder::AmfH265,
        HardwareEncoderCli::QsvH264 => HardwareEncoder::QsvH264,
        HardwareEncoderCli::QsvH265 => HardwareEncoder::QsvH265,
        HardwareEncoderCli::QsvAv1 => HardwareEncoder::QsvAV1,
        HardwareEncoderCli::Vaapi => HardwareEncoder::Vaapi,
        HardwareEncoderCli::VideoToolbox => HardwareEncoder::VideoToolbox,
        // `Auto` is resolved later against the detected capabilities.
        HardwareEncoderCli::Auto => HardwareEncoder::Software,
        HardwareEncoderCli::Software => HardwareEncoder::Software,
    }
}

impl HardwareEncoderCli {
    pub fn to_hardware_encoder(&self) -> (r: HardwareEncoder)
        ensures
            r == spec_cli_encoder(*self),
    {
        match self {
            HardwareEncoderCli::NvencH264 => HardwareEncoder::NvencH264,
            HardwareEncoderCli::NvencH265 => HardwareEncoder::NvencH265,
            HardwareEncoderCli::NvencAv1 => HardwareEncoder::NvencAV1,
            HardwareEncoderCli::AmfH264 => HardwareEncoder::AmfH264,
            HardwareEncoderCli::AmfH265 => HardwareEncoder::AmfH265,
            HardwareEncoderCli::QsvH264 => HardwareEncoder::QsvH264,
            HardwareEncoderCli::QsvH265 => HardwareEncoder::QsvH265,
            HardwareEncoderCli::QsvAv1 => HardwareEncoder::QsvAV1,
            HardwareEncoderCli::Vaapi => HardwareEncoder::Vaapi,
            HardwareEncoderCli::VideoToolbox => HardwareEncoder::VideoToolbox,
            HardwareEncoderCli::Auto => HardwareEncoder::Software,
            HardwareEncoderCli::Software => HardwareEncoder::Software,
        }
    }
}

/// Preset choice as spelled on the command line.
#[derive(Debug, Clone, Copy, PartialEq, Eq, Structural)]
pub enum HardwarePresetCli {
    UltraFast,
    Faster,
    Fast,
    Medium,
    Slow,
    Slower,
    Highest,
}

pub open spec fn spec_cli_preset(c: HardwarePresetCli) -> HardwarePreset {
    match c {
        HardwarePresetCli::UltraFast => HardwarePreset::UltraFast,
        HardwarePresetCli::Faster => HardwarePreset::Faster,
        HardwarePresetCli::Fast => HardwarePreset::Fast,
        HardwarePresetCli::Medium => HardwarePreset::Medium,
        HardwarePresetCli::Slow => HardwarePreset::Slow,
        HardwarePresetCli::Slower => HardwarePreset::Slower,
        HardwarePresetCli::Highest => HardwarePreset::Highest,
    }
}

impl HardwarePresetCli {
    pub fn to_hardware_preset(&self) -> (r: HardwarePreset)
        ensures
            r == spec_cli_preset(*self),
    {
        match self {
            HardwarePresetCli::UltraFast => HardwarePreset::UltraFast,
            HardwarePresetCli::Faster => HardwarePreset::Faster,
            HardwarePresetCli::Fast => HardwarePreset::Fast,
            HardwarePresetCli::Medium => HardwarePreset::Medium,
            HardwarePresetCli::Slow => HardwarePreset::Slow,
            HardwarePresetCli::Slower => HardwarePreset::Slower,
            HardwarePresetCli::Highest => HardwarePreset::Highest,
        }
    }
}

/// Quality-mode choice as spelled on the command line.
#[derive(Debug, Clone, Copy, PartialEq, Eq, Structural)]
pub enum HardwareQualityCli {
    Auto,
    Constant,
    Variable,
    Constrained,
}

pub open spec fn spec_cli_quality(c: HardwareQualityCli) -> HardwareQuality {
    match c {
        HardwareQualityCli::Auto => HardwareQuality::Auto,
        HardwareQualityCli::Constant => HardwareQuality::Constant,
        HardwareQualityCli::Variable => HardwareQuality::Variable,
        HardwareQualityCli::Constrained => HardwareQuality::Constrained,
    }
}

impl HardwareQualityCli {
    pub fn to_hardware_quality(&self) -> (r: HardwareQuality)
        ensures
            r == spec_cli_quality(*self),
    {
        match self {
            HardwareQualityCli::Auto => HardwareQuality::Auto,
            HardwareQualityCli::Constant => HardwareQuality::Constant,
            HardwareQualityCli::Variable => HardwareQuality::Variable,
            HardwareQualityCli::Constrained => HardwareQuality::Constrained,
        }
    }
}

/// Size preset as spelled on the command line.
#[derive(Debug, Clone, Copy, PartialEq, Eq, Structural)]
pub enum SizePreset {
    Size1MB,
    Size5MB,
    Size10MB,
    Size30MB,
    Size50MB,
    Size100MB,
    Size250MB,
    Size500MB,
    Size1GB,
}

pub open spec fn spec_size_preset_mb(s: SizePreset) -> u32 {
    match s {
        SizePreset::Size1MB => 1,
        SizePreset::Size5MB => 5,
        SizePreset::Size10MB => 10,
        SizePreset::Size30MB => 30,
        SizePreset::Size50MB => 50,
        SizePreset::Size100MB => 100,
        SizePreset::Size250MB => 250,
        SizePreset::Size500MB => 500,
        SizePreset::Size1GB => 1000,
    }
}

impl SizePreset {
    pub fn as_mb(&self) -> (r: u32)
        ensures
            r == spec_size_preset_mb(*self),
    {
        match self {
            SizePreset::Size1MB => 1,
            SizePreset::Size5MB => 5,
            SizePreset::Size10MB => 10,
            SizePreset::Size30MB => 30,
            SizePreset::Size50MB => 50,
            SizePreset::Size100MB => 100,
            SizePreset::Size250MB => 250,
            SizePreset::Size500MB => 500,
            SizePreset::Size1GB => 1000,
        }
    }
}

/// Language of the user-facing messages.
#[derive(Debug, Clone, Copy, PartialEq, Eq, Structural)]
pub enum Language {
    Korean,
    English,
    Japanese,
}

/// Compression-related options, after argument parsing.
#[derive(Debug, Clone)]
pub struct CompressionCliSettings {
    pub size: SizePreset,
    pub hw_encoder: Option<HardwareEncoderCli>,
    pub hw_preset: HardwarePresetCli,
    pub hw_quality: HardwareQualityCli,
    pub cuda_device: Option<u32>,
    pub force_software: bool,
    pub memory_opt: bool,
    pub compatibility: bool,
    pub lang: Language,
}

} // verus!
