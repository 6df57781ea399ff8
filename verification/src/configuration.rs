use vstd::prelude::*;

pub mod archive;
pub mod command;
pub mod compression;
pub mod credential;
pub mod destination;
pub mod database;
pub mod directory;
pub mod encryption;
pub mod program_parameter;

use vstd::string::*;

use archive::Archive;
use credential::Credential;
use database::Database;
use destination::Destination;
use encryption::Encryption;

verus! {

/// The read buffer used when streaming files through a pipeline stage.
pub const BUFFER_SIZE: usize = 32576;

/// The validated configuration graph the pipeline runs on. The loader
/// that fills it from disk stands outside the library and hands it over
/// complete, with every cross-reference resolved.
pub struct Configuration {
    pub archives: Vec<Archive>,
    pub databases: Vec<Database>,
    pub credentials: Vec<Credential>,
    pub destinations: Vec<Destination>,
    pub encryptions: Vec<Encryption>,
    pub working_directory: String,
}

impl Configuration {
    pub fn new() -> (r: Configuration)
        ensures
            r.archives@.len() == 0,
            r.databases@.len() == 0,
            r.credentials@.len() == 0,
            r.destinations@.len() == 0,
            r.encryptions@.len() == 0,
            r.working_directory@.len() == 0,
    {
        Configuration {
            archives: Vec::new(),
            databases: Vec::new(),
            credentials: Vec::new(),
            destinations: Vec::new(),
            encryptions: Vec::new(),
            working_directory: String::new(),
        }
    }
}

} // verus!
