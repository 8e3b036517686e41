//! GitHub Copilot: what a token exchange returns, and the headers that every
//! request carries.

use vstd::prelude::*;

verus! {

/// Where the backend is reached.
#[derive(Debug)]
pub struct CopilotEndpoints {
    pub api: String,
}

/// A short-lived token and what came with it.
#[derive(Debug)]
pub struct CopilotAuth {
    pub endpoints: CopilotEndpoints,
    pub token: String,
    pub expires_at: u64,
}

/// The names and values of the headers, as contracts see them.
pub open spec fn header_views(headers: Seq<(&'static str, &'static str)>) -> Seq<
    (Seq<char>, Seq<char>),
> {
    headers.map_values(|h: (&'static str, &'static str)| (h.0@, h.1@))
}

/// The headers that every request to the backend carries, each as a name
/// and a value.
pub fn get_headers() -> (headers: Vec<(&'static str, &'static str)>)
    ensures
        header_views(headers@) == seq![
            ("User-Agent"@, "GitHubCopilotChat/0.32.4"@),
            ("Editor-Version"@, "vscode/1.105.1"@),
            ("Editor-Plugin-Version"@, "copilot-chat/0.32.4"@),
            ("Copilot-Integration-Id"@, "vscode-chat"@),
        ],
{
    let mut headers: Vec<(&'static str, &'static str)> = Vec::new();
    headers.push(("User-Agent", "GitHubCopilotChat/0.32.4"));
    headers.push(("Editor-Version", "vscode/1.105.1"));
    headers.push(("Editor-Plugin-Version", "copilot-chat/0.32.4"));
    headers.push(("Copilot-Integration-Id", "vscode-chat"));
    assert(header_views(headers@) =~= seq![
        ("User-Agent"@, "GitHubCopilotChat/0.32.4"@),
        ("Editor-Version"@, "vscode/1.105.1"@),
        ("Editor-Plugin-Version"@, "copilot-chat/0.32.4"@),
        ("Copilot-Integration-Id"@, "vscode-chat"@),
    ]);
    headers
}

} // verus!
