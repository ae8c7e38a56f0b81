//! Settings of one compression request, built from user input and the
//! detected capabilities; the encoder field may be swapped between retry
//! attempts within one request.

use vstd::prelude::*;

use crate::capabilities::{vec_contains_encoder, HardwareCapabilities};
use crate::cli::{
    spec_cli_encoder, spec_cli_preset, spec_cli_quality, spec_size_preset_mb,
    CompressionCliSettings,
};
use crate::encoders::{HardwareEncoder, HardwarePreset, HardwareQuality};
use crate::size_presets::{spec_preset_from_mb, TargetSize};

verus! {

#[derive(Debug, Clone)]
pub struct CompressionSettings {
    pub target_size: TargetSize,
    pub estimated_size_mb: Option<u32>,
    pub hardware_encoder: HardwareEncoder,
    pub enable_hardware_accel: bool,
    pub cuda_device_id: Option<u32>,
    pub hardware_preset: HardwarePreset,
    pub hardware_quality: HardwareQuality,
    pub force_software_fallback: bool,
    pub memory_optimization: bool,
    /// Forces the widely-supported H.264 codec whatever the backend.
    pub compatibility_mode: bool,
}

/// The encoder a request starts with: the explicit choice when it is
/// available (or software encoding is forced anyway), else the host's
/// preferred encoder, with software as the last resort.
pub open spec fn spec_settings_encoder(
    cli: CompressionCliSettings,
    caps: HardwareCapabilities,
) -> HardwareEncoder {
    match cli.hw_encoder {
        Some(c) => {
            let requested = spec_cli_encoder(c);
            if caps.available_encoders@.contains(requested) || cli.force_software {
                requested
            } else {
                match caps.preferred_encoder {
                    Some(p) => p,
                    None => HardwareEncoder::Software,
                }
            }
        },
        None => if cli.force_software {
            HardwareEncoder::Software
        } else {
            match caps.preferred_encoder {
                Some(p) => p,
                None => HardwareEncoder::Software,
            }
        },
    }
}

impl CompressionSettings {
    /// Builds the settings of one request from the parsed command line and
    /// the detected capabilities.
    pub fn from_cli_settings(
        cli_settings: &CompressionCliSettings,
        hw_capabilities: &HardwareCapabilities,
    ) -> (r: CompressionSettings)
        ensures
            r.target_size == spec_preset_from_mb(spec_size_preset_mb(cli_settings.size)),
            r.hardware_encoder == spec_settings_encoder(*cli_settings, *hw_capabilities),
            r.enable_hardware_accel == (!cli_settings.force_software && r.hardware_encoder
                != HardwareEncoder::Software),
            r.estimated_size_mb is None,
            r.cuda_device_id == cli_settings.cuda_device,
            r.hardware_preset == spec_cli_preset(cli_settings.hw_preset),
            r.hardware_quality == spec_cli_quality(cli_settings.hw_quality),
            r.force_software_fallback == cli_settings.force_software,
            r.memory_optimization == cli_settings.memory_opt,
            r.compatibility_mode == cli_settings.compatibility,
    {
        let target_size = TargetSize::from_mb(cli_settings.size.as_mb());
        let hardware_encoder = match &cli_settings.hw_encoder {
            Some(cli_encoder) => {
                let requested = cli_encoder.to_hardware_encoder();
                if vec_contains_encoder(&hw_capabilities.available_encoders, &requested)
                    || cli_settings.force_software {
                    requested
                } else {
                    match &hw_capabilities.preferred_encoder {
                        Some(p) => *p,
                        None => HardwareEncoder::Software,
                    }
                }
            },
            None => {
                if cli_settings.force_software {
                    HardwareEncoder::Software
                } else {
                    match &hw_capabilities.preferred_encoder {
                        Some(p) => *p,
                        None => HardwareEncoder::Software,
                    }
                }
            },
        };
        let enable_hardware_accel = !cli_settings.force_software && hardware_encoder
            != HardwareEncoder::Software;
        CompressionSettings {
            target_size,
            estimated_size_mb: None,
            hardware_encoder,
            enable_hardware_accel,
            cuda_device_id: cli_settings.cuda_device,
            hardware_preset: cli_settings.hw_preset.to_hardware_preset(),
            hardware_quality: cli_settings.hw_quality.to_hardware_quality(),
            force_software_fallback: cli_settings.force_software,
            memory_optimization: cli_settings.memory_opt,
            compatibility_mode: cli_settings.compatibility,
        }
    }

    pub fn get_effective_target_mb(&self) -> (r: Option<u32>)
        ensures
            r == Some(crate::size_presets::spec_target_mb(self.target_size)),
    {
        Some(self.target_size.as_mb())
    }
}

impl Default for CompressionSettings {
    /// Ten-megabyte target on the software encoder, balanced preset,
    /// compatibility mode on.
    fn default() -> (r: CompressionSettings)
        ensures
            r.target_size == TargetSize::Size10MB,
            r.estimated_size_mb is None,
            r.hardware_encoder == HardwareEncoder::Software,
            r.enable_hardware_accel == true,
            r.cuda_device_id is None,
            r.hardware_preset == HardwarePreset::Medium,
            r.hardware_quality == HardwareQuality::Auto,
            r.force_software_fallback == false,
            r.memory_optimization == false,
            r.compatibility_mode == true,
    {
        CompressionSettings {
            target_size: TargetSize::Size10MB,
            estimated_size_mb: None,
            hardware_encoder: HardwareEncoder::Software,
            enable_hardware_accel: true,
            cuda_device_id: None,
            hardware_preset: HardwarePreset::Medium,
            hardware_quality: HardwareQuality::Auto,
            force_software_fallback: false,
            memory_optimization: false,
            compatibility_mode: true,
        }
    }
}

} // verus!
