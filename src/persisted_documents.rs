//! The Apollo persisted-operation protocol: a POST body that names an
//! operation by the hash of its document.
use vstd::prelude::*;

verus! {

/// Declares `serde_json::Map`, a JSON object carried as it came.
#[verifier::external_type_specification]
#[verifier::external_body]
#[verifier::reject_recursive_types(K)]
#[verifier::reject_recursive_types(V)]
pub struct ExJsonMap<K, V>(serde_json::Map<K, V>);

pub struct PersistedQuery {
    pub hash: String,
}

pub struct Extensions {
    pub persisted_query: PersistedQuery,
    /// The other extensions, as they came.
    pub other: serde_json::Map<String, serde_json::Value>,
}

/// The body of a persisted-operation request, once parsed.
pub struct ApolloPersistedOperationsIncomingMessage {
    pub variables: Option<serde_json::Map<String, serde_json::Value>>,
    pub operation_name: Option<String>,
    pub extensions: Extensions,
}

pub struct ExtractedPersistedDocument {
    pub hash: String,
    pub variables: Option<serde_json::Map<String, serde_json::Value>>,
    pub operation_name: Option<String>,
    pub extensions: Option<serde_json::Map<String, serde_json::Value>>,
}

pub struct ApolloManifestPersistedDocumentsProtocol;

impl ApolloManifestPersistedDocumentsProtocol {
    /// Extracts the persisted document from a POST request whose body parsed
    /// as a persisted-operation message; any other request has none.
    pub fn try_extraction(&self, is_post: bool, message: Option<ApolloPersistedOperationsIncomingMessage>) -> (r: Option<ExtractedPersistedDocument>)
        ensures
            r is Some <==> is_post && message is Some,
            r matches Some(d) ==> message matches Some(m) && d.hash == m.extensions.persisted_query.hash
                && d.variables == m.variables && d.operation_name == m.operation_name
                && d.extensions == Some(m.extensions.other),
    {
        if !is_post {
            return None;
        }
        match message {
            Some(m) => Some(ExtractedPersistedDocument {
                hash: m.extensions.persisted_query.hash,
                variables: m.variables,
                operation_name: m.operation_name,
                extensions: Some(m.extensions.other),
            }),
            None => None,
        }
    }
}

} // verus!
