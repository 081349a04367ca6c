use vstd::prelude::*;

use crate::model::server_stream::ServerStream;
use crate::text::concat2;

verus! {

/// One line of output of the server process.
#[derive(Debug)]
pub struct ServerLogLine {
    pub stream: ServerStream,
    pub line: String,
}

/// The tag that `render` puts in front of a line of the given stream.
pub open spec fn stream_tag(stream: ServerStream) -> Seq<char> {
    match stream {
        ServerStream::Stdout => "[stdout] "@,
        ServerStream::Stderr => "[stderr] "@,
    }
}

/// The text that `render` gives for a line.
pub open spec fn rendered(stream: ServerStream, line: Seq<char>) -> Seq<char> {
    stream_tag(stream) + line
}

impl Clone for ServerLogLine {
    fn clone(&self) -> (r: Self)
        ensures
            r == *self,
    {
        ServerLogLine { stream: self.stream, line: self.line.clone() }
    }
}

impl ServerLogLine {
    /// The line with its stream tag in front: `[stdout] text` or `[stderr] text`.
    pub fn render(&self) -> (r: String)
        ensures
            r@ == rendered(self.stream, self.line@),
    {
        match self.stream {
            ServerStream::Stdout => concat2("[stdout] ", self.line.as_str()),
            ServerStream::Stderr => concat2("[stderr] ", self.line.as_str()),
        }
    }
}

/// A rendered line is a bracketed stream tag of nine characters, different
/// for the two streams, followed by the line itself.
pub proof fn law_render_tags_line(stream: ServerStream, line: Seq<char>)
    ensures
        rendered(stream, line).len() == line.len() + 9,
        rendered(stream, line)[0] == '[',
        rendered(stream, line)[7] == ']',
        rendered(stream, line).skip(9) == line,
        stream_tag(ServerStream::Stdout) != stream_tag(ServerStream::Stderr),
{
    reveal_strlit("[stdout] ");
    reveal_strlit("[stderr] ");
    assert(rendered(stream, line).skip(9) =~= line);
    assert(stream_tag(ServerStream::Stdout)[4] != stream_tag(ServerStream::Stderr)[4]);
}

} // verus!
