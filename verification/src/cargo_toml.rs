use vstd::prelude::*;
use vstd::string::*;

use crate::error::CommonError;

verus! {

/// The fields of a Cargo.toml manifest that the dispatcher reads.
#[derive(Debug, Clone)]
pub struct CargoToml {
    pub package: Option<Package>,
}

/// The `[package]` table entries the dispatcher reads.
#[derive(Debug, Clone)]
pub struct Package {
    pub homepage: Option<String>,
    pub repository: Option<String>,
}

impl CargoToml {
    /// The project page URL: the package's homepage, or its repository
    /// when no homepage is given.
    pub fn get_url(&self) -> (r: Result<String, CommonError>)
        ensures
            self.package is None ==> (r matches Err(CommonError::NotFound(m)) && m@
                == "cargo.toml [package] field not found!"@),
            self.package matches Some(p) ==> (p.homepage matches Some(u) ==> (r matches Ok(res)
                && res@ == u@)),
            self.package matches Some(p) ==> (p.homepage is None ==> (p.repository matches Some(u)
                ==> (r matches Ok(res) && res@ == u@))),
            self.package matches Some(p) ==> ((p.homepage is None && p.repository is None)
                ==> (r matches Err(CommonError::NotFound(m)) && m@
                == "cargo.toml [package] homepage or repository field not found!"@)),
    {
        match &self.package {
            Some(pkg) => match &pkg.homepage {
                Some(url) => Ok(url.clone()),
                None => match &pkg.repository {
                    Some(url) => Ok(url.clone()),
                    None => Err(
                        CommonError::NotFound(
                            String::from_str(
                                "cargo.toml [package] homepage or repository field not found!",
                            ),
                        ),
                    ),
                },
            },
            None => Err(
                CommonError::NotFound(String::from_str("cargo.toml [package] field not found!")),
            ),
        }
    }
}

} // verus!
