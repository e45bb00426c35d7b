//! The run's inputs, as given on the command line, and the OAuth client
//! configuration.

use vstd::prelude::*;

verus! {

/// The command-line inputs of one run.
#[derive(Debug)]
pub struct Args {
    /// Comma-separated list of video file paths.
    pub videos: String,
    /// Time interval between uploads (`2h`, `30m`, `1d`).
    pub interval: String,
    /// Path of the OAuth configuration file.
    pub oauth_config: String,
    /// Path of a JSON file of video metadata.
    pub metadata: Option<String>,
    /// Start time of the first upload, in RFC 3339 form.
    pub start_time: Option<String>,
    /// Path of a file holding the first upload's time as a Unix timestamp.
    pub timestamp_file: Option<String>,
    /// Show the schedule without uploading.
    pub dry_run: bool,
}

impl Args {
    pub fn timestamp_file(&self) -> (r: Option<&String>)
        ensures
            match r {
                Some(s) => self.timestamp_file == Some(*s),
                None => self.timestamp_file is None,
            },
    {
        match &self.timestamp_file {
            Some(s) => Some(s),
            None => None,
        }
    }

    pub fn videos(&self) -> (r: &str)
        ensures
            r@ == self.videos@,
    {
        self.videos.as_str()
    }

    pub fn interval(&self) -> (r: &str)
        ensures
            r@ == self.interval@,
    {
        self.interval.as_str()
    }

    pub fn dry_run(&self) -> (r: bool)
        ensures
            r == self.dry_run,
    {
        self.dry_run
    }

    pub fn start_time(&self) -> (r: Option<&String>)
        ensures
            match r {
                Some(s) => self.start_time == Some(*s),
                None => self.start_time is None,
            },
    {
        match &self.start_time {
            Some(s) => Some(s),
            None => None,
        }
    }

    pub fn oauth_config(&self) -> (r: &str)
        ensures
            r@ == self.oauth_config@,
    {
        self.oauth_config.as_str()
    }
}

/// The OAuth client registered with the provider.
#[derive(Debug)]
pub struct OAuthConfig {
    pub client_id: String,
    pub client_secret: String,
    pub redirect_uri: String,
}

} // verus!
