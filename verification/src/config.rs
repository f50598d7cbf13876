//! Configuration of the method-override filter.

use vstd::prelude::*;
use vstd::string::StringExecFns;

verus! {

/// Which query parameter names the override, and whether non-`POST` requests
/// carrying that parameter are rejected rather than passed through.
///
/// The configuration is set up once and then only read while requests are
/// evaluated.
#[derive(Clone, Debug)]
pub struct QueryMethod {
    parameter_name: String,
    strict_mode: bool,
}

impl QueryMethod {
    /// The configured parameter name, as a sequence of characters.
    pub closed spec fn spec_parameter_name(&self) -> Seq<char> {
        self.parameter_name@
    }

    /// Whether strict mode is enabled.
    pub closed spec fn spec_strict_mode(&self) -> bool {
        self.strict_mode
    }

    /// The configuration invariant: the parameter name is never empty.
    pub open spec fn wf(&self) -> bool {
        self.spec_parameter_name().len() > 0
    }

    /// The configured parameter name: the query-string key that selects the
    /// override.
    pub fn override_key(&self) -> (r: &String)
        ensures
            r@ == self.spec_parameter_name(),
    {
        &self.parameter_name
    }

    /// Whether strict mode is enabled.
    pub(crate) fn strict(&self) -> (r: bool)
        ensures
            r == self.spec_strict_mode(),
    {
        self.strict_mode
    }

    /// Create the filter configuration with the default settings: parameter
    /// name `_method`, strict mode disabled.
    pub fn new() -> (r: Self)
        ensures
            r.spec_parameter_name() == "_method"@,
            !r.spec_strict_mode(),
            r.wf(),
    {
        proof {
            reveal_strlit("_method");
        }
        QueryMethod { parameter_name: String::from_str("_method"), strict_mode: false }
    }

    /// The parameter name to use. By default this is `_method`, meaning that a
    /// request like `/path?_method=PUT` selects the override. An application
    /// that already uses `_method` for its own data can pick another name
    /// here.
    pub fn parameter_name(&mut self, name: &str) -> (r: Self)
        requires
            name@.len() > 0,
        ensures
            final(self).spec_parameter_name() == name@,
            final(self).spec_strict_mode() == old(self).spec_strict_mode(),
            r.spec_parameter_name() == name@,
            r.spec_strict_mode() == old(self).spec_strict_mode(),
    {
        self.parameter_name = name.to_owned();
        QueryMethod {
            parameter_name: self.parameter_name.clone(),
            strict_mode: self.strict_mode,
        }
    }

    /// Disabled by default. When enabled, non-`POST` requests that carry the
    /// override parameter are rejected with a 400 response.
    pub fn enable_strict_mode(&mut self) -> (r: Self)
        ensures
            final(self).spec_parameter_name() == old(self).spec_parameter_name(),
            final(self).spec_strict_mode(),
            r.spec_parameter_name() == old(self).spec_parameter_name(),
            r.spec_strict_mode(),
    {
        self.strict_mode = true;
        QueryMethod {
            parameter_name: self.parameter_name.clone(),
            strict_mode: self.strict_mode,
        }
    }

    /// When strict mode is disabled, non-`POST` requests that carry the
    /// override parameter pass through untouched.
    pub fn disable_strict_mode(&mut self) -> (r: Self)
        ensures
            final(self).spec_parameter_name() == old(self).spec_parameter_name(),
            !final(self).spec_strict_mode(),
            r.spec_parameter_name() == old(self).spec_parameter_name(),
            !r.spec_strict_mode(),
    {
        self.strict_mode = false;
        QueryMethod {
            parameter_name: self.parameter_name.clone(),
            strict_mode: self.strict_mode,
        }
    }
}

impl Default for QueryMethod {
    /// The default configuration: parameter name `_method`, strict mode
    /// disabled.
    fn default() -> (r: Self)
        ensures
            r.spec_parameter_name() == "_method"@,
            !r.spec_strict_mode(),
            r.wf(),
    {
        QueryMethod::new()
    }
}

} // verus!
