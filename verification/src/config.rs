//! Where the configuration file is looked for by default.
use vstd::prelude::*;

verus! {

/// The directory the default configuration path starts from.
#[derive(Clone, Copy, Debug, PartialEq, Eq, Structural)]
pub enum ConfigBase {
    /// `$XDG_CONFIG_HOME`.
    XdgConfigHome,
    /// `$HOME/.config`.
    HomeConfig,
    /// The current directory.
    CurrentDir,
}

/// Chooses the base of the default configuration path from which of
/// `XDG_CONFIG_HOME` and `HOME` are set: the first wins, then the second,
/// and the current directory when neither is.
pub fn config_base(xdg_config_home_set: bool, home_set: bool) -> (r: ConfigBase)
    ensures
        r == if xdg_config_home_set {
            ConfigBase::XdgConfigHome
        } else if home_set {
            ConfigBase::HomeConfig
        } else {
            ConfigBase::CurrentDir
        },
{
    if xdg_config_home_set {
        ConfigBase::XdgConfigHome
    } else if home_set {
        ConfigBase::HomeConfig
    } else {
        ConfigBase::CurrentDir
    }
}

} // verus!
