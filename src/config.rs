use vstd::prelude::*;

verus! {

/// Where the secrets live: the AWS profile to sign requests with and the
/// DynamoDB table that holds one record per site.
#[derive(Debug, Clone, PartialEq, Eq)]
pub struct Config {
    pub aws_profile: String,
    pub dynamodb_table_name: String,
}

} // verus!
