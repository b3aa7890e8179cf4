//! An application state, operations on files, and data processors.
use vstd::prelude::*;
use vstd::string::*;
use crate::sample::shared::Config;

verus! {

/// Main application state.
#[derive(Debug, Clone)]
pub struct State {
    pub config: Config,
    pub name: String,
    pub running: bool,
    pub counter: u32,
}

impl State {
    /// A stopped state with a zero counter and the default configuration.
    pub fn new(name: String) -> (r: State)
        ensures
            r.name == name,
            !r.running,
            r.counter == 0,
            r.config.settings@.len() == 0,
    {
        State { config: Config::default(), name, running: false, counter: 0 }
    }

    /// Starts the application.
    pub fn start(&mut self)
        ensures
            final(self).running,
            final(self).counter == old(self).counter,
            final(self).name == old(self).name,
            final(self).config == old(self).config,
    {
        self.running = true;
    }

    /// Stops the application.
    pub fn stop(&mut self)
        ensures
            !final(self).running,
            final(self).counter == old(self).counter,
            final(self).name == old(self).name,
            final(self).config == old(self).config,
    {
        self.running = false;
    }

    /// The current counter value.
    pub fn counter(&self) -> (r: u32)
        ensures
            r == self.counter,
    {
        self.counter
    }

    /// Adds one to the counter.
    pub fn increment(&mut self)
        requires
            old(self).counter < u32::MAX,
        ensures
            final(self).counter == old(self).counter + 1,
            final(self).running == old(self).running,
            final(self).name == old(self).name,
            final(self).config == old(self).config,
    {
        self.counter = self.counter + 1;
    }

    /// Stops the application and clears the counter.
    pub fn reset(&mut self)
        ensures
            !final(self).running,
            final(self).counter == 0,
            final(self).name == old(self).name,
            final(self).config == old(self).config,
    {
        self.running = false;
        self.counter = 0;
    }
}

/// Operations on files.
#[derive(Debug, Clone)]
pub enum Operation {
    Read { path: String },
    Write { path: String, data: Vec<u8> },
    Delete { path: String },
    List,
}

/// Processors of byte data.
pub trait Processor {
    /// Processes some data.
    fn process(&mut self, data: &[u8]) -> Vec<u8>;

    /// The processor's name.
    fn name(&self) -> &str;
}

/// A processor that hands its input back.
#[derive(Debug, Clone)]
pub struct SimpleProcessor {
    pub name: String,
}

impl SimpleProcessor {
    pub fn new(name: String) -> (r: SimpleProcessor)
        ensures
            r.name == name,
    {
        SimpleProcessor { name }
    }
}

impl Processor for SimpleProcessor {
    fn process(&mut self, data: &[u8]) -> Vec<u8> {
        vstd::slice::slice_to_vec(data)
    }

    fn name(&self) -> &str {
        self.name.as_str()
    }
}

/// Input that is not empty and shorter than 1000 bytes.
pub fn validate_input(input: &str) -> (r: bool)
    ensures
        r == (input@.len() > 0 && input.len() < 1000),
{
    !input.is_empty() && input.len() < 1000
}

/// Reads a configuration; every text gives the default one.
pub fn parse_config(config_str: &str) -> (r: Result<Config, String>)
    ensures
        r matches Ok(c) && c.max_connections == 100 && c.timeout_ms == 5000 && !c.debug,
{
    Ok(Config::default())
}

} // verus!
