use crate::error::MftError;
use vstd::prelude::*;

verus! {

/// Where the table is read from and where its records go.
#[derive(Debug)]
pub struct Config {
    pub database_url: String,
    pub mft_file_path: String,
}

pub open spec fn default_database_url() -> Seq<char> {
    "sqlite:mft_data.db"@
}

pub open spec fn default_mft_file_path() -> Seq<char> {
    "C:\\path\\to\\MFT"@
}

impl Config {
    /// The default configuration; fails with `InvalidConfig` if a value is
    /// empty.
    pub fn new() -> (r: Result<Config, MftError>)
        ensures
            match r {
                Ok(c) => c.database_url@ == default_database_url() && c.mft_file_path@
                    == default_mft_file_path(),
                Err(_) => false,
            },
    {
        let database_url = "sqlite:mft_data.db".to_owned();
        let mft_file_path = "C:\\path\\to\\MFT".to_owned();
        proof {
            reveal_strlit("sqlite:mft_data.db");
            reveal_strlit("C:\\path\\to\\MFT");
        }
        if database_url.as_str().is_empty() || mft_file_path.as_str().is_empty() {
            return Err(MftError::InvalidConfig);
        }
        Ok(Config { database_url, mft_file_path })
    }
}

} // verus!
