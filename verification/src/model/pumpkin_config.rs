use vstd::prelude::*;

use crate::text::owned;
use crate::words::views;

verus! {

/// The operating system the program was built for, as far as the defaults
/// of this crate tell them apart.
#[derive(Debug, Clone, Copy, PartialEq, Eq, Structural)]
pub enum Platform {
    Windows,
    MacOs,
    Linux,
    Other,
}

/// What the configuration file holds: where the server runs, which program
/// starts it, and the arguments it is started with.
#[derive(Debug)]
pub struct PumpkinConfig {
    pub server_directory: String,
    pub executable: String,
    pub arguments: Vec<String>,
}

/// A configuration as plain character sequences.
pub struct ConfigView {
    pub server_directory: Seq<char>,
    pub executable: Seq<char>,
    pub arguments: Seq<Seq<char>>,
}

impl View for PumpkinConfig {
    type V = ConfigView;

    open spec fn view(&self) -> ConfigView {
        ConfigView {
            server_directory: self.server_directory@,
            executable: self.executable@,
            arguments: views(self.arguments@),
        }
    }
}

/// The file name of the server program that the project publishes for a platform.
pub open spec fn default_executable_name(platform: Platform) -> Seq<char> {
    match platform {
        Platform::Windows => "pumpkin-X64-Windows.exe"@,
        Platform::MacOs => "pumpkin-X64-macOS"@,
        Platform::Linux => "pumpkin-X64-Linux"@,
        Platform::Other => "pumpkin-X64-Windows.exe"@,
    }
}

/// The configuration used where no file exists.
pub open spec fn default_config(platform: Platform) -> ConfigView {
    ConfigView {
        server_directory: "."@,
        executable: default_executable_name(platform),
        arguments: Seq::empty(),
    }
}

/// The executable that the default configuration names on `platform`.
pub fn default_executable_path(platform: Platform) -> (r: String)
    ensures
        r@ == default_executable_name(platform),
{
    match platform {
        Platform::Windows => owned("pumpkin-X64-Windows.exe"),
        Platform::MacOs => owned("pumpkin-X64-macOS"),
        Platform::Linux => owned("pumpkin-X64-Linux"),
        Platform::Other => owned("pumpkin-X64-Windows.exe"),
    }
}

/// A copy of a list of strings.
pub fn clone_strings(v: &Vec<String>) -> (r: Vec<String>)
    ensures
        r@ == v@,
{
    let mut r: Vec<String> = Vec::new();
    let mut i: usize = 0;
    while i < v.len()
        invariant
            i <= v.len(),
            r@ == v@.take(i as int),
        decreases v.len() - i,
    {
        r.push(v[i].clone());
        i = i + 1;
        assert(r@ =~= v@.take(i as int));
    }
    assert(v@.take(v.len() as int) =~= v@);
    r
}

impl Clone for PumpkinConfig {
    fn clone(&self) -> (r: Self)
        ensures
            r.server_directory == self.server_directory,
            r.executable == self.executable,
            r.arguments@ == self.arguments@,
            r@ == self@,
    {
        let arguments = clone_strings(&self.arguments);
        PumpkinConfig {
            server_directory: self.server_directory.clone(),
            executable: self.executable.clone(),
            arguments,
        }
    }
}

impl PumpkinConfig {
    /// The configuration used where no file exists: the current directory,
    /// the published server program of `platform`, and no arguments.
    pub fn default_for(platform: Platform) -> (r: Self)
        ensures
            r@ == default_config(platform),
    {
        let r = PumpkinConfig {
            server_directory: owned("."),
            executable: default_executable_path(platform),
            arguments: Vec::new(),
        };
        assert(views(r.arguments@) =~= Seq::<Seq<char>>::empty());
        r
    }
}

} // verus!
