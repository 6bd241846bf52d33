use vstd::prelude::*;

verus! {

/// Where the HTTP layer accepts requests from.
pub struct ApiConfig {
    pub frontend_url: String,
}

/// Settings of the request-facing queue.
pub struct DownloadQueueCfg {
    /// Root of the per-request working directories.
    pub storage_path: String,
}

/// Settings of the download worker's fetches.
pub struct FileDownloaderCfg {
    /// Root of the per-request working directories.
    pub storage_path: String,
}

/// Where the bus is, for publishing.
pub struct PublisherCfg {
    pub nats_url: String,
}

/// Where the bus is, for subscribing.
pub struct SubscriberCfg {
    pub nats_url: String,
}

/// How to reach the relational store.
pub struct PostgresDbCfg {
    pub postgres_conn: String,
}

/// How to reach the object store for reading artifacts.
pub struct S3StorageDownloaderCfg {
    pub access_key: String,
    pub secret: String,
    pub url: String,
}

/// How to reach the object store for writing artifacts.
pub struct FileUploaderCfg {
    pub access_key: String,
    pub secret: String,
    pub url: String,
}

/// The settings of the single-process server.
pub struct Config {
    pub frontend_url: String,
    pub storage_path: String,
}

impl Default for ApiConfig {
    fn default() -> (r: Self)
        ensures
            r.frontend_url@ == "http://localhost:3000"@,
    {
        ApiConfig { frontend_url: "http://localhost:3000".to_owned() }
    }
}

impl Default for DownloadQueueCfg {
    fn default() -> (r: Self)
        ensures
            r.storage_path@ == "./target/output"@,
    {
        DownloadQueueCfg { storage_path: "./target/output".to_owned() }
    }
}

impl Default for FileDownloaderCfg {
    fn default() -> (r: Self)
        ensures
            r.storage_path@ == "./target/output"@,
    {
        FileDownloaderCfg { storage_path: "./target/output".to_owned() }
    }
}

impl Default for PublisherCfg {
    fn default() -> (r: Self)
        ensures
            r.nats_url@ == "localhost:4222"@,
    {
        PublisherCfg { nats_url: "localhost:4222".to_owned() }
    }
}

impl Default for SubscriberCfg {
    fn default() -> (r: Self)
        ensures
            r.nats_url@ == "localhost:4222"@,
    {
        SubscriberCfg { nats_url: "localhost:4222".to_owned() }
    }
}

impl Default for Config {
    fn default() -> (r: Self)
        ensures
            r.frontend_url@ == "http://localhost:3000"@,
            r.storage_path@ == "./target/output"@,
    {
        Config {
            frontend_url: "http://localhost:3000".to_owned(),
            storage_path: "./target/output".to_owned(),
        }
    }
}

} // verus!
