use vstd::prelude::*;

use crate::ids::CreateConfig;

verus! {

/// A group of source files bundled into one file for the assistant.
#[derive(Debug, Clone, PartialEq, Eq)]
pub struct FileBundle {
    pub bundle_name: String,
    pub src_dir: String,
    pub dst_ext: String,
    pub src_globs: Vec<String>,
}

/// The settings of an assistant's directory.
#[derive(Debug, Clone, PartialEq, Eq)]
pub struct Config {
    pub name: String,
    pub model: String,
    pub instruction_file: String,
    pub file_bundles: Vec<FileBundle>,
}

impl<'a> From<&'a Config> for CreateConfig {
    fn from(value: &'a Config) -> (r: CreateConfig) {
        CreateConfig { name: value.name.clone(), model: value.model.clone() }
    }
}

impl<'a> vstd::std_specs::convert::FromSpecImpl<&'a Config> for CreateConfig {
    open spec fn obeys_from_spec() -> bool {
        true
    }

    open spec fn from_spec(value: &'a Config) -> CreateConfig {
        CreateConfig { name: value.name, model: value.model }
    }
}

} // verus!
