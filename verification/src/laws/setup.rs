//! What the guidance for setting up says.
use crate::setup::{plugin_guide, setup_text, Client};
use vstd::prelude::*;

verus! {

/// The pieces of a text with the client's name, its command and the path of the
/// executable in between.
pub open spec fn filled(
    t: Seq<Seq<char>>,
    exe: Seq<char>,
    name: Seq<char>,
    command: Seq<char>,
) -> Seq<char> {
    t[0] + name + t[1] + command + t[2] + exe + t[3] + name + t[4] + command + t[5] + exe + t[6]
        + name + t[7]
}

/// The guidance is one text for every executable and every client, in which the
/// path of the executable stands twice, the command of the client twice and its
/// name three times, as they are.
pub proof fn law_guide_is_one_text()
    ensures
        exists|t: Seq<Seq<char>>|
            t.len() == 8 && forall|exe: &str, client: &Client, r: String| #[trigger]
                call_ensures(setup_text, (exe, client), r) ==> r@ == filled(
                    t,
                    exe@,
                    client.name@,
                    client.command@,
                ),
{
    let t = seq![
        "Dust setup\n==========\n\n"@ + "1. Register the MCP server with your client.\n\n   "@,
        " Code (per-user):\n     "@,
        " mcp add dust -- \""@,
        "\" adapter\n\n   "@,
        " Desktop — add to "@,
        "_desktop_config.json under \"mcpServers\":\n     \"dust\": {\n       \"command\": \""@,
        "\",\n       \"args\": [\"adapter\"]\n     }\n\n   The adapter forks the broker on first use; you do not start it yourself.\n\n"@
            + plugin_guide() + "3. Open a place in Studio, then ask "@,
        " to run list_sessions to confirm the\n   connection."@,
    ];
    assert forall|exe: &str, client: &Client, r: String| #[trigger]
        call_ensures(setup_text, (exe, client), r) implies r@ == filled(
        t,
        exe@,
        client.name@,
        client.command@,
    ) by {
        assert(r@ =~= filled(t, exe@, client.name@, client.command@));
    }
    assert(t.len() == 8);
}

} // verus!
