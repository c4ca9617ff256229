//! What a person is told about setting the programs up.
use vstd::prelude::*;

verus! {

/// The MCP client that the guidance is for.
pub struct Client {
    /// Its name.
    pub name: String,
    /// The name of its command, which its files begin with too.
    pub command: String,
}

/// The part of the guidance that registers the server with the client.
pub open spec fn register_guide(exe: Seq<char>, client: Client) -> Seq<char> {
    "1. Register the MCP server with your client.\n\n   "@ + client.name@
        + " Code (per-user):\n     "@ + client.command@ + " mcp add dust -- \""@ + exe
        + "\" adapter\n\n   "@ + client.name@ + " Desktop — add to "@ + client.command@
        + "_desktop_config.json under \"mcpServers\":\n     \"dust\": {\n       \"command\": \""@
        + exe
        + "\",\n       \"args\": [\"adapter\"]\n     }\n\n   The adapter forks the broker on first use; you do not start it yourself.\n\n"@
}

/// The part of the guidance that installs the plugin.
pub open spec fn plugin_guide() -> Seq<char> {
    "2. Install the Studio plugin.\n\n   Copy plugin/Dust.rbxm into your Roblox Studio plugins folder\n   (Studio: right-click in Explorer's plugin area, or save it as a Local Plugin),\n   then enable \"Allow HTTP Requests\" in Game Settings -> Security.\n\n"@
}

/// The guidance for an executable at this path and this client.
pub open spec fn setup_guide(exe: Seq<char>, client: Client) -> Seq<char> {
    "Dust setup\n==========\n\n"@ + register_guide(exe, client) + plugin_guide()
        + "3. Open a place in Studio, then ask "@ + client.name@
        + " to run list_sessions to confirm the\n   connection."@
}

fn register_text(exe: &str, client: &Client) -> (r: String)
    ensures
        r@ == register_guide(exe@, *client),
{
    "1. Register the MCP server with your client.\n\n   ".to_string().concat(
        client.name.as_str(),
    ).concat(" Code (per-user):\n     ").concat(client.command.as_str()).concat(
        " mcp add dust -- \"",
    ).concat(exe).concat("\" adapter\n\n   ").concat(client.name.as_str()).concat(
        " Desktop — add to ",
    ).concat(client.command.as_str()).concat(
        "_desktop_config.json under \"mcpServers\":\n     \"dust\": {\n       \"command\": \"",
    ).concat(exe).concat(
        "\",\n       \"args\": [\"adapter\"]\n     }\n\n   The adapter forks the broker on first use; you do not start it yourself.\n\n",
    )
}

/// Writes [`setup_guide`].
pub fn setup_text(exe: &str, client: &Client) -> (r: String)
    ensures
        r@ == setup_guide(exe@, *client),
{
    "Dust setup\n==========\n\n".to_string().concat(register_text(exe, client).as_str()).concat(
        "2. Install the Studio plugin.\n\n   Copy plugin/Dust.rbxm into your Roblox Studio plugins folder\n   (Studio: right-click in Explorer's plugin area, or save it as a Local Plugin),\n   then enable \"Allow HTTP Requests\" in Game Settings -> Security.\n\n",
    ).concat("3. Open a place in Studio, then ask ").concat(client.name.as_str()).concat(
        " to run list_sessions to confirm the\n   connection.",
    )
}

} // verus!
