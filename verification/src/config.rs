//! The overrides that steer a development migration.

use vstd::prelude::*;

verus! {

/// The one text that switches an override on.
pub open spec fn enabling_text() -> Seq<char> {
    seq!['t', 'r', 'u', 'e']
}

/// Reads one override: `true` exactly when `value` is present and is the text
/// `true`, letter for letter.
pub fn override_enabled(value: Option<&str>) -> (enabled: bool)
    ensures
        enabled == (value matches Some(text) && text@ == enabling_text()),
{
    match value {
        Some(text) => {
            proof {
                reveal_strlit("true");
                assert("true"@ =~= enabling_text());
            }
            text.to_owned() == "true".to_owned()
        },
        None => false,
    }
}

/// The overrides of a development migration, read once at startup.
#[derive(Clone, Copy, Debug, PartialEq, Eq, Structural)]
pub struct MigrationConfig {
    /// A diff that destroys stored data may be applied.
    pub accept_data_loss: bool,
    /// The schema is dropped and rebuilt before anything else is done.
    pub force_reset: bool,
}

impl MigrationConfig {
    /// The configuration given by the raw values of the two overrides.
    pub fn from_overrides(accept_data_loss: Option<&str>, force_reset: Option<&str>) -> (config:
        MigrationConfig)
        ensures
            config.accept_data_loss == (accept_data_loss matches Some(text) && text@
                == enabling_text()),
            config.force_reset == (force_reset matches Some(text) && text@ == enabling_text()),
    {
        MigrationConfig {
            accept_data_loss: override_enabled(accept_data_loss),
            force_reset: override_enabled(force_reset),
        }
    }

    /// Whether a destructive diff goes ahead: either override allows it, the
    /// reset because it is itself the destruction that was asked for.
    pub open spec fn allows_data_loss(self) -> bool {
        self.accept_data_loss || self.force_reset
    }
}

} // verus!
