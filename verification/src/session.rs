//! Step execution support: the command vector an execution session runs,
//! the partition of captured log chunks into the step's stdout and
//! stderr, and the assembly of one step's result.

use vstd::prelude::*;

use crate::model::LogChunk;
use crate::model::LogChunkModel;
use crate::model::Step;
use crate::model::StepResult;
use crate::model::StreamOrigin;

verus! {

/// The command vector of one execution session: the step's shell command,
/// run through `/bin/sh -c`.
pub open spec fn spec_sh_command(content: Seq<char>) -> Seq<Seq<char>> {
    seq!["/bin/sh"@, "-c"@, content]
}

/// Builds the command vector for one step's execution session.
pub fn sh_command(content: &str) -> (r: Vec<String>)
    ensures
        r.deep_view() == spec_sh_command(content@),
{
    let mut cmd: Vec<String> = Vec::new();
    cmd.push(String::from_str("/bin/sh"));
    cmd.push(String::from_str("-c"));
    cmd.push(content.to_owned());
    proof {
        assert(cmd.deep_view() =~= spec_sh_command(content@));
    }
    cmd
}

/// The text a stream produced: the concatenation, in arrival order, of
/// the chunks tagged with that origin.
pub open spec fn spec_stream_text(chunks: Seq<LogChunkModel>, origin: StreamOrigin) -> Seq<char>
    decreases chunks.len(),
{
    if chunks.len() == 0 {
        Seq::empty()
    } else {
        (if chunks[0].origin == origin {
            chunks[0].text
        } else {
            Seq::empty()
        }) + spec_stream_text(chunks.skip(1), origin)
    }
}

/// Partitions captured log chunks into the stdout and stderr texts, each
/// the concatenation of its stream's chunks in arrival order.
pub fn accumulate_logs(chunks: &Vec<LogChunk>) -> (r: (String, String))
    ensures
        r.0@ == spec_stream_text(chunks.deep_view(), StreamOrigin::StdOut),
        r.1@ == spec_stream_text(chunks.deep_view(), StreamOrigin::StdErr),
{
    let ghost cv = chunks.deep_view();
    let mut out = String::new();
    let mut err = String::new();
    proof {
        assert(cv.skip(0) =~= cv);
    }
    let mut i: usize = 0;
    while i < chunks.len()
        invariant
            i <= chunks.len(),
            cv == chunks.deep_view(),
            out@ + spec_stream_text(cv.skip(i as int), StreamOrigin::StdOut) == spec_stream_text(
                cv,
                StreamOrigin::StdOut,
            ),
            err@ + spec_stream_text(cv.skip(i as int), StreamOrigin::StdErr) == spec_stream_text(
                cv,
                StreamOrigin::StdErr,
            ),
        decreases chunks.len() - i,
    {
        assert(cv.skip(i as int)[0] == cv[i as int]);
        let chunk = &chunks[i];
        match chunk.origin {
            StreamOrigin::StdOut => out.append(chunk.text.as_str()),
            StreamOrigin::StdErr => err.append(chunk.text.as_str()),
        }
        proof {
            assert(cv.skip(i as int).skip(1) =~= cv.skip(i as int + 1));
            assert(out@ + spec_stream_text(cv.skip(i as int + 1), StreamOrigin::StdOut)
                =~= spec_stream_text(cv, StreamOrigin::StdOut));
            assert(err@ + spec_stream_text(cv.skip(i as int + 1), StreamOrigin::StdErr)
                =~= spec_stream_text(cv, StreamOrigin::StdErr));
        }
        i = i + 1;
    }
    proof {
        assert(cv.skip(i as int).len() == 0);
        assert(out@ =~= out@ + spec_stream_text(cv.skip(i as int), StreamOrigin::StdOut));
        assert(err@ =~= err@ + spec_stream_text(cv.skip(i as int), StreamOrigin::StdErr));
    }
    (out, err)
}

/// Assembles the result of one executed step from its exit status and the
/// logs captured while it ran. A non-zero exit code is recorded here, not
/// raised: by itself it does not abort the remaining steps.
pub fn build_step_result(step: &Step, exit_code: i64, chunks: &Vec<LogChunk>) -> (r: StepResult)
    ensures
        r@.step_title == step@.title,
        r@.exit_code == exit_code as int,
        r@.stdout == spec_stream_text(chunks.deep_view(), StreamOrigin::StdOut),
        r@.stderr == spec_stream_text(chunks.deep_view(), StreamOrigin::StdErr),
{
    let (stdout, stderr) = accumulate_logs(chunks);
    StepResult { step_title: step.title.clone(), exit_code, stdout, stderr }
}

} // verus!
