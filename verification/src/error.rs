//! The errors of geometry extraction and format conversion.

use vstd::prelude::*;
use vstd::string::*;

verus! {

/// Why the geometry could not be read out of a mesh.
#[derive(Debug, Clone, Copy, PartialEq, Eq, Structural)]
pub enum ExtractGeometryError {
    /// The mesh holds no vertex position attribute.
    NoVertexPositionData,
    /// The mesh holds no index buffer.
    NoVertexIndicies,
}

impl ExtractGeometryError {
    /// The text of the message that describes this error.
    pub open spec fn text(self) -> Seq<char> {
        match self {
            ExtractGeometryError::NoVertexPositionData =>
                "no vertex position data found in the specified mesh"@,
            ExtractGeometryError::NoVertexIndicies =>
                "no vertex indicies found in the specified mesh"@,
        }
    }

    /// Describes the error for a human reader.
    pub fn message(&self) -> (text: String)
        ensures
            text@ == self.text(),
    {
        match self {
            ExtractGeometryError::NoVertexPositionData => String::from_str(
                "no vertex position data found in the specified mesh",
            ),
            ExtractGeometryError::NoVertexIndicies => String::from_str(
                "no vertex indicies found in the specified mesh",
            ),
        }
    }
}

/// A buffer is stored in a layout that the conversion does not handle.
#[derive(Debug, Clone, Copy, PartialEq, Eq)]
pub struct UnsupportedFormatError(&'static str);

impl View for UnsupportedFormatError {
    type V = Seq<char>;

    /// The reason given: the one layout that would have been accepted.
    closed spec fn view(&self) -> Seq<char> {
        self.0@
    }
}

/// The reason given when vertex positions are not triples of 32-bit floats.
pub open spec fn vertex_layout_reason() -> Seq<char> {
    "only [f32; 3] is supported"@
}

/// The reason given when indices are not 32 bits wide.
pub open spec fn index_width_reason() -> Seq<char> {
    "only u32 is supported"@
}

impl UnsupportedFormatError {
    /// The error for a vertex buffer in another layout than three 32-bit floats.
    pub closed spec fn vertex_layout() -> Self {
        UnsupportedFormatError("only [f32; 3] is supported")
    }

    /// The error for an index buffer that is not 32 bits wide.
    pub closed spec fn index_width() -> Self {
        UnsupportedFormatError("only u32 is supported")
    }

    /// The two errors carry the two reasons.
    pub proof fn lemma_reasons()
        ensures
            Self::vertex_layout()@ == vertex_layout_reason(),
            Self::index_width()@ == index_width_reason(),
    {
    }

    pub(crate) fn for_vertex_layout() -> (e: Self)
        ensures
            e == Self::vertex_layout(),
            e@ == vertex_layout_reason(),
    {
        UnsupportedFormatError("only [f32; 3] is supported")
    }

    pub(crate) fn for_index_width() -> (e: Self)
        ensures
            e == Self::index_width(),
            e@ == index_width_reason(),
    {
        UnsupportedFormatError("only u32 is supported")
    }

    /// The text of the message that describes this error.
    pub open spec fn text(self) -> Seq<char> {
        "unsupported format: "@ + self@
    }

    /// Describes the error for a human reader.
    pub fn message(&self) -> (text: String)
        ensures
            text@ == self.text(),
    {
        String::from_str("unsupported format: ").concat(self.0)
    }
}

/// Why no triangle mesh could be made of a mesh: the stage that failed, with
/// its own error.
#[derive(Debug, Clone, Copy, PartialEq, Eq)]
pub enum TriMeshBuildError {
    /// Reading the buffers out of the mesh failed.
    Extracion(ExtractGeometryError),
    /// The vertex positions are in a layout that is not handled.
    UnsupportedVerexDataFormat(UnsupportedFormatError),
    /// The indices are in a layout that is not handled.
    UnsupportedIndexFormat(UnsupportedFormatError),
}

impl TriMeshBuildError {
    /// The text of the message that describes this error.
    pub open spec fn text(self) -> Seq<char> {
        match self {
            TriMeshBuildError::Extracion(e) => e.text(),
            TriMeshBuildError::UnsupportedVerexDataFormat(e) => "verticies: "@ + e.text(),
            TriMeshBuildError::UnsupportedIndexFormat(e) => "indicies: "@ + e.text(),
        }
    }

    /// Describes the error for a human reader.
    pub fn message(&self) -> (text: String)
        ensures
            text@ == self.text(),
    {
        match self {
            TriMeshBuildError::Extracion(e) => e.message(),
            TriMeshBuildError::UnsupportedVerexDataFormat(e) => {
                let inner = e.message();
                String::from_str("verticies: ").concat(inner.as_str())
            },
            TriMeshBuildError::UnsupportedIndexFormat(e) => {
                let inner = e.message();
                String::from_str("indicies: ").concat(inner.as_str())
            },
        }
    }
}

impl From<ExtractGeometryError> for TriMeshBuildError {
    fn from(e: ExtractGeometryError) -> (r: Self) {
        TriMeshBuildError::Extracion(e)
    }
}

impl vstd::std_specs::convert::FromSpecImpl<ExtractGeometryError> for TriMeshBuildError {
    open spec fn obeys_from_spec() -> bool {
        true
    }

    open spec fn from_spec(e: ExtractGeometryError) -> Self {
        TriMeshBuildError::Extracion(e)
    }
}

} // verus!
