//! What holds of every configuration that the environment can give.

use crate::args::{
    flag_named, number_in, port_variable, resolve, ConfigErrorView, ConfigView, Scheme,
    Vars, CONN_TIMEOUT_VAR, DEFAULT_CONNECT_TIMEOUT, DEFAULT_PORT, DEFAULT_REQUEST_TIMEOUT,
    LOOPBACK_ADDRESS, LOOPBACK_NAME, LOOPBACK_VAR, PATH_VAR, PORT_NAME_VAR, PORT_VAR,
    REQ_TIMEOUT_VAR, SCHEME_VAR,
};
use crate::decimal::{decimal, parse_unsigned};
use vstd::prelude::*;

verus! {

/// The configuration of an environment that sets nothing.
pub open spec fn default_config() -> ConfigView {
    ConfigView {
        scheme: Scheme::Http,
        use_loopback_addr: false,
        port: DEFAULT_PORT,
        path: seq!['/'],
        connect_timeout: DEFAULT_CONNECT_TIMEOUT,
        request_timeout: DEFAULT_REQUEST_TIMEOUT,
    }
}

/// The variable `name` is set to something that is no number within `0..=max`.
pub open spec fn bad_number(vars: Vars, name: Seq<char>, max: nat) -> bool {
    vars.contains_key(name) && parse_unsigned(vars[name], max) is None
}

/// The scheme variable is set to something other than `http` and `https`.
pub open spec fn bad_scheme(vars: Vars) -> bool {
    vars.contains_key(SCHEME_VAR@) && Scheme::named(vars[SCHEME_VAR@]) is None
}

/// The loopback flag is set to something other than `true` and `false`.
pub open spec fn bad_flag(vars: Vars) -> bool {
    vars.contains_key(LOOPBACK_VAR@) && flag_named(vars[LOOPBACK_VAR@]) is None
}

/// Some variable is set to a value that cannot be used.
pub open spec fn has_bad_value(vars: Vars) -> bool {
    ||| bad_number(vars, port_variable(vars), u16::MAX as nat)
    ||| bad_number(vars, CONN_TIMEOUT_VAR@, u64::MAX as nat)
    ||| bad_number(vars, REQ_TIMEOUT_VAR@, u64::MAX as nat)
    ||| bad_scheme(vars)
    ||| bad_flag(vars)
}

/// No two of the variables share a name.
pub proof fn lemma_variable_names_differ()
    ensures
        PORT_NAME_VAR@ != PORT_VAR@,
        PORT_NAME_VAR@ != PATH_VAR@,
        PORT_NAME_VAR@ != CONN_TIMEOUT_VAR@,
        PORT_NAME_VAR@ != REQ_TIMEOUT_VAR@,
        PORT_NAME_VAR@ != SCHEME_VAR@,
        PORT_NAME_VAR@ != LOOPBACK_VAR@,
        PORT_VAR@ != PATH_VAR@,
        PORT_VAR@ != CONN_TIMEOUT_VAR@,
        PORT_VAR@ != REQ_TIMEOUT_VAR@,
        PORT_VAR@ != SCHEME_VAR@,
        PORT_VAR@ != LOOPBACK_VAR@,
        PATH_VAR@ != CONN_TIMEOUT_VAR@,
        PATH_VAR@ != REQ_TIMEOUT_VAR@,
        PATH_VAR@ != SCHEME_VAR@,
        PATH_VAR@ != LOOPBACK_VAR@,
        CONN_TIMEOUT_VAR@ != REQ_TIMEOUT_VAR@,
        CONN_TIMEOUT_VAR@ != SCHEME_VAR@,
        CONN_TIMEOUT_VAR@ != LOOPBACK_VAR@,
        REQ_TIMEOUT_VAR@ != SCHEME_VAR@,
        REQ_TIMEOUT_VAR@ != LOOPBACK_VAR@,
        SCHEME_VAR@ != LOOPBACK_VAR@,
{
    reveal_strlit("THC_PORT_NAME");
    reveal_strlit("THC_PORT");
    reveal_strlit("THC_PATH");
    reveal_strlit("THC_CONN_TIMEOUT");
    reveal_strlit("THC_REQ_TIMEOUT");
    reveal_strlit("THC_SCHEME");
    reveal_strlit("THC_USE_LOOPBACK_ADDRESS");
    assert(PORT_NAME_VAR@.len() == 13);
    assert(PORT_VAR@.len() == 8);
    assert(PATH_VAR@.len() == 8);
    assert(CONN_TIMEOUT_VAR@.len() == 16);
    assert(REQ_TIMEOUT_VAR@.len() == 15);
    assert(SCHEME_VAR@.len() == 10);
    assert(LOOPBACK_VAR@.len() == 24);
    assert(PORT_VAR@[6] != PATH_VAR@[6]);
}

/// With no argument and none of the variables set, the configuration is the
/// default one.
pub proof fn lemma_nothing_set_gives_defaults(argc: nat, vars: Vars)
    requires
        argc <= 1,
        !vars.contains_key(PORT_NAME_VAR@),
        !vars.contains_key(PORT_VAR@),
        !vars.contains_key(PATH_VAR@),
        !vars.contains_key(CONN_TIMEOUT_VAR@),
        !vars.contains_key(REQ_TIMEOUT_VAR@),
        !vars.contains_key(SCHEME_VAR@),
        !vars.contains_key(LOOPBACK_VAR@),
    ensures
        resolve(argc, vars) == Ok::<ConfigView, ConfigErrorView>(default_config()),
{
}

/// In a configuration that was made, each value whose variable is unset is
/// its default.
pub proof fn lemma_unset_gives_default(argc: nat, vars: Vars)
    requires
        resolve(argc, vars) is Ok,
    ensures
        ({
            let config = resolve(argc, vars)->Ok_0;
            &&& !vars.contains_key(port_variable(vars)) ==> config.port == DEFAULT_PORT
            &&& !vars.contains_key(PATH_VAR@) ==> config.path == seq!['/']
            &&& !vars.contains_key(CONN_TIMEOUT_VAR@) ==> config.connect_timeout
                == DEFAULT_CONNECT_TIMEOUT
            &&& !vars.contains_key(REQ_TIMEOUT_VAR@) ==> config.request_timeout
                == DEFAULT_REQUEST_TIMEOUT
            &&& !vars.contains_key(SCHEME_VAR@) ==> config.scheme == Scheme::Http
            &&& !vars.contains_key(LOOPBACK_VAR@) ==> !config.use_loopback_addr
        }),
{
}

/// A configuration is made if and only if no argument is given and no
/// variable holds a bad value: a bad value is never passed over for its
/// default.
pub proof fn lemma_bad_value_is_error(argc: nat, vars: Vars)
    ensures
        resolve(argc, vars) is Ok <==> argc <= 1 && !has_bad_value(vars),
{
}

/// Every configuration that is made has a path that begins with `/`.
pub proof fn lemma_resolved_is_wf(argc: nat, vars: Vars)
    requires
        resolve(argc, vars) is Ok,
    ensures
        resolve(argc, vars)->Ok_0.wf(),
{
}

/// The variable that an error names is set, and its value is the bad one.
pub proof fn lemma_error_names_culprit(argc: nat, vars: Vars)
    requires
        resolve(argc, vars) is Err,
    ensures
        match resolve(argc, vars)->Err_0 {
            ConfigErrorView::UnexpectedArguments => argc > 1,
            ConfigErrorView::InvalidPort(variable) => variable == port_variable(vars) && bad_number(
                vars,
                variable,
                u16::MAX as nat,
            ),
            ConfigErrorView::InvalidConnectTimeout => bad_number(
                vars,
                CONN_TIMEOUT_VAR@,
                u64::MAX as nat,
            ),
            ConfigErrorView::InvalidRequestTimeout => bad_number(
                vars,
                REQ_TIMEOUT_VAR@,
                u64::MAX as nat,
            ),
            ConfigErrorView::InvalidScheme => bad_scheme(vars),
            ConfigErrorView::InvalidLoopbackFlag => bad_flag(vars),
        },
{
}

/// The loopback flag picks the host of the URL: `true` the number, `false`
/// or no value the name.
pub proof fn lemma_loopback_flag_selects_host(argc: nat, vars: Vars)
    requires
        resolve(argc, vars) is Ok,
    ensures
        ({
            let config = resolve(argc, vars)->Ok_0;
            let port = decimal(config.port as nat);
            &&& vars.contains_key(LOOPBACK_VAR@) && vars[LOOPBACK_VAR@] == "true"@ ==> {
                &&& config.host() == LOOPBACK_ADDRESS@
                &&& config.url() == config.scheme.text() + "://"@ + LOOPBACK_ADDRESS@ + ":"@ + port
                    + config.path
            }
            &&& !vars.contains_key(LOOPBACK_VAR@) || vars[LOOPBACK_VAR@] == "false"@ ==> {
                &&& config.host() == LOOPBACK_NAME@
                &&& config.url() == config.scheme.text() + "://"@ + LOOPBACK_NAME@ + ":"@ + port
                    + config.path
            }
        }),
{
    reveal_strlit("true");
    reveal_strlit("false");
    assert("true"@.len() != "false"@.len());
}

/// Where the indirection variable names a variable, the port is read from
/// that one: its value if it is set, the default if it is not.
pub proof fn lemma_port_is_read_from_named_variable(argc: nat, vars: Vars, name: Seq<char>)
    requires
        argc <= 1,
        vars.contains_key(PORT_NAME_VAR@),
        vars[PORT_NAME_VAR@] == name,
    ensures
        resolve(argc, vars) matches Ok(config) ==> number_in(
            vars,
            name,
            DEFAULT_PORT as nat,
            u16::MAX as nat,
        ) == Some(config.port as nat),
        bad_number(vars, name, u16::MAX as nat) ==> resolve(argc, vars) == Err::<
            ConfigView,
            ConfigErrorView,
        >(ConfigErrorView::InvalidPort(name)),
{
}

/// Where the indirection variable names another variable than the canonical
/// one, the canonical one is not looked at: whatever it is set to, and
/// whether it is set at all, the outcome is the same.
pub proof fn lemma_canonical_port_variable_is_ignored(
    argc: nat,
    vars: Vars,
    name: Seq<char>,
    value: Seq<char>,
)
    requires
        vars.contains_key(PORT_NAME_VAR@),
        vars[PORT_NAME_VAR@] == name,
        name != PORT_VAR@,
    ensures
        resolve(argc, vars.insert(PORT_VAR@, value)) == resolve(argc, vars),
        resolve(argc, vars.remove(PORT_VAR@)) == resolve(argc, vars),
{
    lemma_variable_names_differ();
}

} // verus!
