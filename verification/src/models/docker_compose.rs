//! The compose document: services, volumes, networks, configs and secrets,
//! each section keyed by name. Pure data.

use std::collections::HashMap;
use vstd::prelude::*;

verus! {

/// How a service image is built.
#[derive(Debug, PartialEq)]
pub struct Build {
    pub context: String,
    pub dockerfile: String,
}

/// One service of the deployment.
#[derive(Debug, PartialEq)]
pub struct Service {
    pub build: Option<Build>,
    pub image: Option<String>,
    pub ports: Option<Vec<String>>,
    pub networks: Option<Vec<String>>,
    pub configs: Option<Vec<String>>,
    pub secrets: Option<Vec<String>>,
    pub volumes: Option<Vec<String>>,
    pub depends_on: Option<Vec<String>>,
}

/// A named volume.
#[derive(Debug, PartialEq)]
pub struct Volume {
    pub driver: Option<String>,
    pub driver_opts: Option<HashMap<String, String>>,
}

/// A named network.
#[derive(Debug, PartialEq)]
pub struct Network {
    pub driver: Option<String>,
}

/// A named config.
#[derive(Debug, PartialEq)]
pub struct Config {
    pub external: bool,
}

/// A named secret.
#[derive(Debug, PartialEq)]
pub struct Secret {
    pub external: bool,
}

/// A compose document. All five sections are required.
#[derive(Debug, PartialEq)]
pub struct DockerCompose {
    pub services: HashMap<String, Service>,
    pub volumes: HashMap<String, Volume>,
    pub networks: HashMap<String, Network>,
    pub configs: HashMap<String, Config>,
    pub secrets: HashMap<String, Secret>,
}

} // verus!
