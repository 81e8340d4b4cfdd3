//! The filesystem layout of the pipeline, relative to its working root: the
//! toolchain directory, one directory per fetched source artifact under
//! `models/`, and the intermediate and final files under `outputs/`.
//! Presence of one of these paths is the pipeline's only durable "already
//! done" marker.

use vstd::prelude::*;
use vstd::string::StringExecFns;
use crate::model::{ReductionProfile, SourceName};

verus! {

/// The canonical toolchain directory.
pub open spec fn toolchain_dir_view() -> Seq<char> {
    "llama.cpp"@
}

/// The fixed-version release archive, as it lands in the working root.
pub open spec fn archive_name_view() -> Seq<char> {
    "master-d2a4366.tar.gz"@
}

/// Where the fixed-version release archive is fetched from.
pub open spec fn archive_url_view() -> Seq<char> {
    "https://github.com/ggerganov/llama.cpp/archive/refs/tags/master-d2a4366.tar.gz"@
}

/// The directory name the archive unpacks to, before it is renamed.
pub open spec fn extracted_dir_view() -> Seq<char> {
    "llama.cpp-master-d2a4366"@
}

/// The toolchain's size-reduction binary, its build marker.
pub open spec fn reducer_path_view() -> Seq<char> {
    "llama.cpp/quantize"@
}

/// The toolchain's conversion entry point.
pub open spec fn converter_path_view() -> Seq<char> {
    "llama.cpp/convert.py"@
}

/// The local directory of a fetched source artifact.
pub open spec fn source_dir_view(source: SourceName) -> Seq<char> {
    "models/"@ + source.short_name_view()
}

/// The intermediate file the conversion stage produces.
pub open spec fn intermediate_path_view(source: SourceName) -> Seq<char> {
    "outputs/"@ + source.short_name_view() + "-ggml.bin"@
}

/// The final artifact the reduction stage produces.
pub open spec fn final_path_view(source: SourceName, profile: ReductionProfile) -> Seq<char> {
    "outputs/"@ + source.short_name_view() + "-ggml-"@ + profile.tag_view() + ".bin"@
}

pub fn toolchain_dir() -> (r: String)
    ensures
        r@ == toolchain_dir_view(),
{
    "llama.cpp".to_owned()
}

pub fn archive_name() -> (r: String)
    ensures
        r@ == archive_name_view(),
{
    "master-d2a4366.tar.gz".to_owned()
}

pub fn archive_url() -> (r: String)
    ensures
        r@ == archive_url_view(),
{
    "https://github.com/ggerganov/llama.cpp/archive/refs/tags/master-d2a4366.tar.gz".to_owned()
}

pub fn extracted_dir() -> (r: String)
    ensures
        r@ == extracted_dir_view(),
{
    "llama.cpp-master-d2a4366".to_owned()
}

pub fn reducer_path() -> (r: String)
    ensures
        r@ == reducer_path_view(),
{
    "llama.cpp/quantize".to_owned()
}

pub fn converter_path() -> (r: String)
    ensures
        r@ == converter_path_view(),
{
    "llama.cpp/convert.py".to_owned()
}

pub fn source_dir(source: SourceName) -> (r: String)
    ensures
        r@ == source_dir_view(source),
{
    "models/".to_owned().concat(source.short_name().as_str())
}

pub fn intermediate_path(source: SourceName) -> (r: String)
    ensures
        r@ == intermediate_path_view(source),
{
    "outputs/".to_owned().concat(source.short_name().as_str()).concat("-ggml.bin")
}

pub fn final_path(source: SourceName, profile: ReductionProfile) -> (r: String)
    ensures
        r@ == final_path_view(source, profile),
{
    "outputs/"
        .to_owned()
        .concat(source.short_name().as_str())
        .concat("-ggml-")
        .concat(profile.tag().as_str())
        .concat(".bin")
}

} // verus!
