//! Named dictionary registry for morphological analysis: bare metadata and a
//! list of entries, filled by a future analysis component.

use vstd::prelude::*;

verus! {

pub struct Dictionary {
    pub name: String,
    pub version: String,
    pub author: String,
    pub description: String,
    pub license: String,
    pub url: String,
    pub entries: Vec<String>,
}

impl Dictionary {
    /// A registry entry with the given metadata and no entries yet.
    pub fn new(
        name: &String,
        version: &String,
        author: &String,
        description: &String,
        license: &String,
        url: &String,
    ) -> (d: Self)
        ensures
            d.name == *name,
            d.version == *version,
            d.author == *author,
            d.description == *description,
            d.license == *license,
            d.url == *url,
            d.entries@.len() == 0,
    {
        Self {
            name: name.clone(),
            version: version.clone(),
            author: author.clone(),
            description: description.clone(),
            license: license.clone(),
            url: url.clone(),
            entries: Vec::new(),
        }
    }
}

} // verus!
