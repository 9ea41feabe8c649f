//! Failures of the renderer.
//!
//! Every failure is fatal: nothing is retried and no partial result is kept.
//! Those of the startup phase stop the program before the first frame, those of
//! the runtime phase end the frame loop.

use vstd::prelude::*;
use vstd::std_specs::convert::FromSpecImpl;

verus! {

/// What the reader of model files reports when it gives up.
#[derive(Clone, Copy, Debug, PartialEq, Eq, Structural)]
pub enum ParseFailure {
    OpenFileFailed,
    ReadError,
    UnrecognizedCharacter,
    PositionParseError,
    NormalParseError,
    TexcoordParseError,
    FaceParseError,
    MaterialParseError,
    InvalidObjectName,
    GenericFailure,
}

/// Why a model could not be turned into a mesh.
#[derive(Clone, Copy, Debug, PartialEq, Eq, Structural)]
pub enum ModelLoadError {
    /// The model file could not be opened.
    AssetNotFound,
    /// The file or its geometry is malformed: a line does not parse, or a
    /// vertex reference points outside an attribute array.
    MalformedGeometry,
    /// An attribute the import policy needs is absent.
    MissingAttribute,
}

/// Why a pipeline configuration was refused.
#[derive(Clone, Copy, Debug, PartialEq, Eq, Structural)]
pub enum PipelineConfigError {
    /// A stage program is not a module of the device's bytecode for its stage.
    InvalidShaderBytecode,
    /// The target format cannot take the color output of a triangle list.
    UnsupportedFormat,
}

/// The phase of the program in which a failure arises.
#[derive(Clone, Copy, Debug, PartialEq, Eq, Structural)]
pub enum Phase {
    Startup,
    Runtime,
}

/// Every failure of the renderer.
#[derive(Clone, Copy, Debug, PartialEq, Eq, Structural)]
pub enum RenderError {
    AssetNotFound,
    MalformedAsset,
    ShaderCompileError,
    DeviceCreationError,
    SurfaceAcquisitionError,
    DeviceLostError,
}

impl ModelLoadError {
    /// The load error that a failure of the reader amounts to: a file that
    /// cannot be opened is not found, every other failure is a malformed file.
    pub open spec fn of_failure(failure: ParseFailure) -> ModelLoadError {
        if failure == ParseFailure::OpenFileFailed {
            ModelLoadError::AssetNotFound
        } else {
            ModelLoadError::MalformedGeometry
        }
    }

    pub fn from_failure(failure: ParseFailure) -> (e: ModelLoadError)
        ensures
            e == Self::of_failure(failure),
    {
        match failure {
            ParseFailure::OpenFileFailed => ModelLoadError::AssetNotFound,
            _ => ModelLoadError::MalformedGeometry,
        }
    }
}

impl RenderError {
    /// Asset, shader and device-creation failures belong to startup; a surface
    /// that cannot be acquired and a lost device belong to the frame loop.
    pub open spec fn phase_of(self) -> Phase {
        match self {
            RenderError::SurfaceAcquisitionError | RenderError::DeviceLostError => Phase::Runtime,
            _ => Phase::Startup,
        }
    }

    pub fn phase(self) -> (p: Phase)
        ensures
            p == self.phase_of(),
    {
        match self {
            RenderError::SurfaceAcquisitionError => Phase::Runtime,
            RenderError::DeviceLostError => Phase::Runtime,
            _ => Phase::Startup,
        }
    }

    /// The text of the diagnostic for the failure.
    pub open spec fn text(self) -> Seq<char> {
        match self {
            RenderError::AssetNotFound => "asset not found"@,
            RenderError::MalformedAsset => "malformed asset"@,
            RenderError::ShaderCompileError => "shader compilation failed"@,
            RenderError::DeviceCreationError => "device resource creation failed"@,
            RenderError::SurfaceAcquisitionError => "surface image acquisition failed"@,
            RenderError::DeviceLostError => "device lost"@,
        }
    }

    pub fn describe(self) -> (s: &'static str)
        ensures
            s@ == self.text(),
    {
        match self {
            RenderError::AssetNotFound => "asset not found",
            RenderError::MalformedAsset => "malformed asset",
            RenderError::ShaderCompileError => "shader compilation failed",
            RenderError::DeviceCreationError => "device resource creation failed",
            RenderError::SurfaceAcquisitionError => "surface image acquisition failed",
            RenderError::DeviceLostError => "device lost",
        }
    }
}

impl From<ModelLoadError> for RenderError {
    fn from(e: ModelLoadError) -> (r: RenderError) {
        match e {
            ModelLoadError::AssetNotFound => RenderError::AssetNotFound,
            ModelLoadError::MalformedGeometry => RenderError::MalformedAsset,
            ModelLoadError::MissingAttribute => RenderError::MalformedAsset,
        }
    }
}

impl FromSpecImpl<ModelLoadError> for RenderError {
    open spec fn obeys_from_spec() -> bool {
        true
    }

    /// A model that is not found stays so; every other load error is a
    /// malformed asset.
    open spec fn from_spec(e: ModelLoadError) -> RenderError {
        match e {
            ModelLoadError::AssetNotFound => RenderError::AssetNotFound,
            ModelLoadError::MalformedGeometry => RenderError::MalformedAsset,
            ModelLoadError::MissingAttribute => RenderError::MalformedAsset,
        }
    }
}

impl From<PipelineConfigError> for RenderError {
    fn from(e: PipelineConfigError) -> (r: RenderError) {
        match e {
            PipelineConfigError::InvalidShaderBytecode => RenderError::DeviceCreationError,
            PipelineConfigError::UnsupportedFormat => RenderError::DeviceCreationError,
        }
    }
}

impl FromSpecImpl<PipelineConfigError> for RenderError {
    open spec fn obeys_from_spec() -> bool {
        true
    }

    /// A refused pipeline is a device resource that could not be created.
    open spec fn from_spec(e: PipelineConfigError) -> RenderError {
        RenderError::DeviceCreationError
    }
}

} // verus!
