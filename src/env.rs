use vstd::prelude::*;

verus! {

/// A setting to be read from the environment variable `name`, with the
/// value to use when the variable is absent or not valid.
pub struct EnvVarDefault<'a, T> {
    pub name: &'a str,
    pub default: T,
}

/// Names an environment variable and its default; the caller reads the
/// variable and parses it.
pub fn env_or<'a, T>(name: &'a str, default: T) -> (r: EnvVarDefault<'a, T>)
    ensures
        r.name == name,
        r.default == default,
{
    EnvVarDefault { name, default }
}

} // verus!
