//! Proxy mode: the path of the real binary to execute.
//!
//! When the executable is invoked under an alias name, the active
//! selection resolves to an installation directory and the real binary
//! lives at `bin/<alias>` inside it.  The unverified shell replaces the
//! process image with that path, passing all original arguments and the
//! inherited environment through unchanged; on success that call never
//! returns.

use vstd::prelude::*;

use crate::config::ConfigData;
use crate::config::SelectError;
use crate::config::SelectionModel;
use crate::config::erl_to_use;
use crate::config::opt_config;
use crate::config::spec_erl_to_use;
use crate::text::path_join;

verus! {

/// The full path of the real binary for alias `bin` under the active
/// installation, or exactly why no installation could be resolved.
pub fn run(bin: &str, cwd_config: Option<&ConfigData>, config: &ConfigData) -> (r: Result<
    String,
    SelectError,
>)
    ensures
        match spec_erl_to_use(opt_config(cwd_config), *config) {
            SelectionModel::Install(dir) => r matches Ok(cmd) && cmd@ == dir + "/"@ + "bin"@ + "/"@
                + bin@,
            SelectionModel::MissingCwdEntry => r == Err::<String, SelectError>(
                SelectError::MissingCwdEntry,
            ),
            SelectionModel::MissingDefault => r == Err::<String, SelectError>(
                SelectError::MissingDefault,
            ),
            SelectionModel::UnknownId(id) => r matches Err(SelectError::UnknownId { id: s }) && s@
                == id,
        },
{
    match erl_to_use(cwd_config, config) {
        Ok(dir) => {
            let b = path_join(dir.as_str(), "bin");
            Ok(path_join(b.as_str(), bin))
        },
        Err(e) => Err(e),
    }
}

} // verus!
