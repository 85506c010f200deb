//! The application configuration and its built-in defaults. Loading a
//! configuration from a file is the transport layer's business; the values
//! themselves, and what they default to, are defined here.

use vstd::prelude::*;

verus! {

/// The application configuration.
#[derive(Debug)]
pub struct AppConfig {
    pub component: String,
    pub project: String,
    pub web_root: String,
    pub main_directory: String,
    pub config_file: String,
    pub miner_count: u16,
}

impl Default for AppConfig {
    fn default() -> (r: AppConfig)
        ensures
            r.component@ == "unknown"@,
            r.project@ == "Actix Blockchain"@,
            r.web_root@ == "/"@,
            r.main_directory@ == Seq::<char>::empty(),
            r.config_file@ == Seq::<char>::empty(),
            r.miner_count == 2,
    {
        AppConfig::new()
    }
}

impl AppConfig {
    /// The built-in default configuration: two mining workers serving under
    /// the web root.
    pub fn new() -> (r: AppConfig)
        ensures
            r.component@ == "unknown"@,
            r.project@ == "Actix Blockchain"@,
            r.web_root@ == "/"@,
            r.main_directory@ == Seq::<char>::empty(),
            r.config_file@ == Seq::<char>::empty(),
            r.miner_count == 2,
    {
        AppConfig {
            component: "unknown".to_owned(),
            project: "Actix Blockchain".to_owned(),
            web_root: "/".to_owned(),
            main_directory: String::new(),
            config_file: String::new(),
            miner_count: 2,
        }
    }
}

impl Clone for AppConfig {
    fn clone(&self) -> (r: AppConfig)
        ensures
            r == *self,
    {
        AppConfig {
            component: self.component.clone(),
            project: self.project.clone(),
            web_root: self.web_root.clone(),
            main_directory: self.main_directory.clone(),
            config_file: self.config_file.clone(),
            miner_count: self.miner_count,
        }
    }
}

} // verus!
