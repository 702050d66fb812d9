//! Archive format discriminators and the dispatch that routes each format to
//! an extractor, chaining the matching decompression kind for tar variants.

use vstd::prelude::*;

verus! {

/// The archive container format, as supplied by the caller (the file-name
/// classifier that produces it is an external collaborator).
#[derive(Clone, Copy, Debug, PartialEq, Eq, Structural)]
pub enum ArchiveFormat {
    Zip,
    Tar,
    Tgz,
    TarGz,
    Tbz,
    TarBz2,
    Txz,
    TarXz,
    Tlz,
    TarLz,
    TarLzma,
    TarZst,
}

/// The decompression adapter to chain in front of the tar extractor.
/// The xz and lzma namings are all handled by the same adapter.
#[derive(Clone, Copy, Debug, PartialEq, Eq, Structural)]
pub enum CompressionKind {
    Identity,
    Gzip,
    Bzip2,
    Zstd,
    Xz,
}

/// The extractor (and, for tar, the decompression adapter) selected for a
/// given format.
#[derive(Clone, Copy, Debug, PartialEq, Eq, Structural)]
pub enum ExtractionRoute {
    Zip,
    Tar { compression: CompressionKind },
}

/// Select the extractor and decompression adapter for a format. Pure routing:
/// exactly one extractor per format, and every tar variant maps to the tar
/// extractor behind its matching adapter.
pub fn dispatch(format: ArchiveFormat) -> (route: ExtractionRoute)
    ensures
        format == ArchiveFormat::Zip ==> route == ExtractionRoute::Zip,
        format == ArchiveFormat::Tar ==> route == (ExtractionRoute::Tar {
            compression: CompressionKind::Identity,
        }),
        format == ArchiveFormat::Tgz || format == ArchiveFormat::TarGz ==> route
            == (ExtractionRoute::Tar { compression: CompressionKind::Gzip }),
        format == ArchiveFormat::Tbz || format == ArchiveFormat::TarBz2 ==> route
            == (ExtractionRoute::Tar { compression: CompressionKind::Bzip2 }),
        format == ArchiveFormat::Txz || format == ArchiveFormat::TarXz || format
            == ArchiveFormat::Tlz || format == ArchiveFormat::TarLz || format
            == ArchiveFormat::TarLzma ==> route == (ExtractionRoute::Tar {
            compression: CompressionKind::Xz,
        }),
        format == ArchiveFormat::TarZst ==> route == (ExtractionRoute::Tar {
            compression: CompressionKind::Zstd,
        }),
{
    match format {
        ArchiveFormat::Zip => ExtractionRoute::Zip,
        ArchiveFormat::Tar => ExtractionRoute::Tar { compression: CompressionKind::Identity },
        ArchiveFormat::Tgz | ArchiveFormat::TarGz => ExtractionRoute::Tar {
            compression: CompressionKind::Gzip,
        },
        ArchiveFormat::Tbz | ArchiveFormat::TarBz2 => ExtractionRoute::Tar {
            compression: CompressionKind::Bzip2,
        },
        ArchiveFormat::Txz
        | ArchiveFormat::TarXz
        | ArchiveFormat::Tlz
        | ArchiveFormat::TarLz
        | ArchiveFormat::TarLzma => ExtractionRoute::Tar { compression: CompressionKind::Xz },
        ArchiveFormat::TarZst => ExtractionRoute::Tar { compression: CompressionKind::Zstd },
    }
}

} // verus!
