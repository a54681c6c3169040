//! A configured hook target: one (repository, branch) deployment destination.

use vstd::prelude::*;

verus! {

/// One hook target from the configuration: where it is reachable
/// (`hook_route`), which pushes it answers to (`repo_name`, `branch`),
/// and what to run (`repository_directory`, `script`). A target with no
/// `secret` accepts unauthenticated requests.
#[derive(Debug)]
pub struct HookConfig {
    pub name: String,
    pub repo_name: String,
    pub hook_route: String,
    pub repository_directory: String,
    pub script: String,
    pub branch: String,
    pub secret: Option<String>,
}

impl Clone for HookConfig {
    fn clone(&self) -> (r: Self)
        ensures
            r == *self,
    {
        HookConfig {
            name: self.name.clone(),
            repo_name: self.repo_name.clone(),
            hook_route: self.hook_route.clone(),
            repository_directory: self.repository_directory.clone(),
            script: self.script.clone(),
            branch: self.branch.clone(),
            secret: match &self.secret {
                Some(s) => Some(s.clone()),
                None => None,
            },
        }
    }
}

} // verus!
