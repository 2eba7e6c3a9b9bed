//! Command-line arguments without the debounce option.

use vstd::prelude::*;

use crate::auth_monitor_params::{
    apply_arguments, arguments_view, params_result_view, AuthMonitorParams, ParamsError,
    ParamsView,
};

verus! {

/// Reads a path and the two options `max-failed-attempts` and
/// `reset-after-seconds` from command-line arguments. The numbers are taken
/// as they are written; only a missing path is turned down afterwards.
pub fn parse_arguments(arguments: &[String]) -> (result: Result<AuthMonitorParams, ParamsError>)
    ensures
        params_result_view(result) == ParamsView::parse_arguments(arguments_view(arguments@)),
{
    let params = match apply_arguments(arguments, false) {
        Ok(params) => params,
        Err(error) => {
            return Err(error);
        },
    };
    if params.filepath.as_str().is_empty() {
        return Err(ParamsError::FilePathNotSpecified);
    }
    Ok(params)
}

} // verus!
