use vstd::prelude::*;

use crate::external_agents::{AgentTransport, ToolName};
use crate::external_agents_spec::{
    SEND_MESSAGE_DESCRIPTION,
    create_external_send_message_tool,
    target_properties,
};
use crate::tool_spec::{ToolSpec, is_function_tool};

verus! {

/// The `send_message` tool of multi-agent v2, on one of its transports.
#[derive(Debug)]
pub struct Handler {
    surface: AgentTransport,
}

impl Handler {
    /// The transport this handler advertises.
    pub closed spec fn transport(&self) -> AgentTransport {
        self.surface
    }

    pub fn collaboration() -> (res: Self)
        ensures
            res.transport() == AgentTransport::Collaboration,
    {
        Handler { surface: AgentTransport::Collaboration }
    }

    pub fn external() -> (res: Self)
        ensures
            res.transport() == AgentTransport::ExternalAgents,
    {
        Handler { surface: AgentTransport::ExternalAgents }
    }

    pub fn surface(&self) -> (res: AgentTransport)
        ensures
            res == self.transport(),
    {
        self.surface
    }

    /// The tool this handler advertises: the plaintext `send_message` on the
    /// external transport; on the collaboration transport, that transport's
    /// own `send_message` tool, which its caller builds and hands in.
    pub fn spec(&self, collaboration_tool: ToolSpec) -> (res: ToolSpec)
        ensures
            self.transport() == AgentTransport::Collaboration ==> res == collaboration_tool,
            self.transport() == AgentTransport::ExternalAgents ==> is_function_tool(
                res,
                "send_message"@,
                SEND_MESSAGE_DESCRIPTION@,
                target_properties(),
                seq!["target"@, "message"@],
            ),
    {
        match self.surface {
            AgentTransport::Collaboration => collaboration_tool,
            AgentTransport::ExternalAgents => create_external_send_message_tool(),
        }
    }

    pub fn tool_name(&self) -> (res: ToolName)
        ensures
            res.name@ == "send_message"@,
            res.namespace is None,
    {
        ToolName::plain("send_message")
    }
}

impl Default for Handler {
    fn default() -> (res: Self)
        ensures
            res.transport() == AgentTransport::Collaboration,
    {
        Handler::collaboration()
    }
}

} // verus!
