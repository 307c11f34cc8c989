//! Settings of the tool, as read from its configuration file.
use vstd::prelude::*;
use crate::json::texts;

verus! {

/// All settings.
pub struct Config {
    pub general: GeneralConfig,
    pub thresholds: ThresholdsConfig,
    pub license: LicenseConfig,
    pub ecosystems: EcosystemsConfig,
}

/// Cache lifetime and default output format.
pub struct GeneralConfig {
    pub cache_ttl_hours: u64,
    pub default_format: String,
}

/// Scores under which a package fails or draws a warning.
pub struct ThresholdsConfig {
    pub fail_under: u8,
    pub warn_under: u8,
}

/// The license of the project and the licenses it does not accept.
pub struct LicenseConfig {
    pub project_license: String,
    pub blocklist: Vec<String>,
}

/// Ecosystems that are switched off.
pub struct EcosystemsConfig {
    pub disabled: Vec<String>,
}

impl Config {
    /// The settings in force when no configuration file is found.
    pub open spec fn is_default(&self) -> bool {
        &&& self.general.cache_ttl_hours == 24
        &&& self.general.default_format@ == "terminal"@
        &&& self.thresholds.fail_under == 40
        &&& self.thresholds.warn_under == 65
        &&& self.license.project_license@ == "MIT"@
        &&& texts(self.license.blocklist@) == seq!["AGPL-3.0"@, "GPL-2.0"@]
        &&& self.ecosystems.disabled@.len() == 0
    }
}

impl Default for Config {
    /// Caches for 24 hours, prints to the terminal, fails under 40, warns
    /// under 65, takes the project to be MIT-licensed, blocks AGPL-3.0 and
    /// GPL-2.0, and switches no ecosystem off.
    fn default() -> (r: Self)
        ensures
            r.is_default(),
    {
        let blocklist = vec![String::from_str("AGPL-3.0"), String::from_str("GPL-2.0")];
        let r = Config {
            general: GeneralConfig {
                cache_ttl_hours: 24,
                default_format: String::from_str("terminal"),
            },
            thresholds: ThresholdsConfig { fail_under: 40, warn_under: 65 },
            license: LicenseConfig {
                project_license: String::from_str("MIT"),
                blocklist,
            },
            ecosystems: EcosystemsConfig { disabled: Vec::new() },
        };
        assert(texts(r.license.blocklist@) =~= seq!["AGPL-3.0"@, "GPL-2.0"@]);
        r
    }
}

} // verus!
