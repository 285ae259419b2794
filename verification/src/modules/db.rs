//! The tables of the local database.

use vstd::prelude::*;
use vstd::string::StringExecFns;

verus! {

/// The address under which the database in the given file is opened.
pub fn db_url(db_file: &str) -> (url: String)
    ensures
        url@ == "sqlite:"@ + db_file@,
{
    let mut url = "sqlite:".to_owned();
    url.append(db_file);
    url
}

/// A table of the local database.
#[derive(Debug, Clone, Copy)]
pub enum TableName {
    Users,
    WebsiteGroups,
    WebsiteItems,
    AssetCategories,
    Assets,
}

impl TableName {
    /// The table's name in the database.
    pub open spec fn spec_name(self) -> Seq<char> {
        match self {
            TableName::Users => "users"@,
            TableName::WebsiteGroups => "website_groups"@,
            TableName::WebsiteItems => "websites"@,
            TableName::AssetCategories => "asset_categories"@,
            TableName::Assets => "assets"@,
        }
    }

    /// The table's name in the database, as it is written in SQL.
    pub fn name(&self) -> (s: &'static str)
        ensures
            s@ == self.spec_name(),
    {
        match self {
            TableName::Users => "users",
            TableName::WebsiteGroups => "website_groups",
            TableName::WebsiteItems => "websites",
            TableName::AssetCategories => "asset_categories",
            TableName::Assets => "assets",
        }
    }
}

} // verus!
