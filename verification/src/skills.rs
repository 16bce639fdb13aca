use vstd::prelude::*;
use std::collections::HashMap;
use crate::error::SkillError;

verus! {

/// What is known of a skill before its full content is loaded.
#[derive(Debug)]
pub struct SkillMeta {
    pub name: String,
    pub description: String,
    pub path: String,
}

/// Finds the skills available to the agent.
pub struct SkillsLoader;

impl SkillsLoader {
    pub fn new() -> (l: Self) {
        SkillsLoader
    }

    /// The skills found, by name: none, as no skill directory is searched
    /// yet.
    pub fn discover(&self) -> (r: Result<HashMap<String, SkillMeta>, SkillError>)
        ensures
            r matches Ok(m) && m@ == Map::<String, SkillMeta>::empty(),
    {
        Ok(HashMap::new())
    }
}

impl Default for SkillsLoader {
    fn default() -> (l: Self) {
        SkillsLoader::new()
    }
}

} // verus!
