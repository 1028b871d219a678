//! Choice of graphics backend.

use vstd::prelude::*;
use crate::text::{lowercase_of, str_equals, to_lowercase};

verus! {

/// The graphics backends the engine can render with.
#[derive(Debug, Clone, Copy, PartialEq, Eq, Structural)]
pub enum BackendKind {
    OpenGL,
    Vulkan,
    DirectX11,
}

/// Name of a backend with its API version.
pub open spec fn spec_backend_name(kind: BackendKind) -> Seq<char> {
    match kind {
        BackendKind::OpenGL => "OpenGL 3.3"@,
        BackendKind::Vulkan => "Vulkan 1.2"@,
        BackendKind::DirectX11 => "Direct3D 11"@,
    }
}

/// Backend selected by an already lowercased setting: "vulkan" or "vk" select
/// Vulkan, "directx", "dx11" or "d3d11" select Direct3D 11, anything else OpenGL.
pub open spec fn spec_backend_from_lowercase(s: Seq<char>) -> BackendKind {
    if s == "vulkan"@ || s == "vk"@ {
        BackendKind::Vulkan
    } else if s == "directx"@ || s == "dx11"@ || s == "d3d11"@ {
        BackendKind::DirectX11
    } else {
        BackendKind::OpenGL
    }
}

impl BackendKind {
    /// The backend named by a lowercased setting (see `spec_backend_from_lowercase`).
    pub fn from_lowercase_name(name: &str) -> (k: BackendKind)
        ensures
            k == spec_backend_from_lowercase(name@),
    {
        if str_equals(name, "vulkan") || str_equals(name, "vk") {
            BackendKind::Vulkan
        } else if str_equals(name, "directx") || str_equals(name, "dx11") || str_equals(
            name,
            "d3d11",
        ) {
            BackendKind::DirectX11
        } else {
            BackendKind::OpenGL
        }
    }

    /// The backend selected by the value of the `GFX_BACKEND` setting, compared
    /// without regard to case; OpenGL when it names no other backend (an unset
    /// variable is passed as the empty string).
    pub fn from_env_value(value: &str) -> (k: BackendKind)
        ensures
            k == spec_backend_from_lowercase(lowercase_of(value@)),
    {
        let lowered = to_lowercase(value);
        Self::from_lowercase_name(lowered.as_str())
    }

    /// Human-readable name with the API version.
    pub fn name(self) -> (n: &'static str)
        ensures
            n@ == spec_backend_name(self),
    {
        match self {
            BackendKind::OpenGL => "OpenGL 3.3",
            BackendKind::Vulkan => "Vulkan 1.2",
            BackendKind::DirectX11 => "Direct3D 11",
        }
    }
}

} // verus!
