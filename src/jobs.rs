//! The job planner: one renderer invocation per stale export step of a file.

use vstd::prelude::*;
use crate::layers::{assemble_layer_cli_flag, decimal, plan_selectors, push_decimal, LayerConfig};
use crate::staleness::{fresh, is_fresh, Timestamp};

verus! {

/// The path `name` under the directory `dir`.
pub uninterp spec fn path_join(dir: Seq<char>, name: Seq<char>) -> Seq<char>;

/// Relies on std::path::Path::join: the joined path depends on the two
/// strings alone, and is valid UTF-8 when both are.
#[verifier::external_body]
pub(crate) fn join_path(dir: &str, name: &str) -> (r: String)
    ensures
        r@ == path_join(dir@, name@),
{
    std::path::Path::new(dir).join(name).to_string_lossy().into_owned()
}

/// Everything a file's export needs besides the file itself.
pub struct BuildConfig {
    /// General renderer flags. Layer selections do not go here.
    pub flags: Vec<String>,
    pub layer_config: LayerConfig,
}

/// One invocation of the renderer.
pub struct DrawioExportStep {
    pub output_path: String,
    pub input_path: String,
    /// Modification time of the output before the job, if it existed.
    pub old_modified_time: Option<Timestamp>,
    /// Arguments of the renderer, in order.
    pub args: Vec<String>,
}

/// The views of a sequence of strings.
pub open spec fn views(v: Seq<String>) -> Seq<Seq<char>> {
    Seq::new(v.len(), |i: int| v[i]@)
}

/// The image name of step `idx` of the file with stem `stem`.
pub open spec fn output_file_name(stem: Seq<char>, idx: nat) -> Seq<char> {
    stem + seq!['-'] + decimal(idx) + seq!['.', 'p', 'n', 'g']
}

/// Where step `idx` of the file with stem `stem` is written.
pub open spec fn output_path_of(out_dir: Seq<char>, stem: Seq<char>, idx: nat) -> Seq<char> {
    path_join(out_dir, output_file_name(stem, idx))
}

/// The renderer's arguments: the general flags, then the output path, then
/// the layer selection, then the input path.
pub open spec fn job_arguments(
    flags: Seq<Seq<char>>,
    output_path: Seq<char>,
    selector: Seq<char>,
    input_path: Seq<char>,
) -> Seq<Seq<char>> {
    flags + seq!["-o"@, output_path, "--layers"@, selector, input_path]
}

/// The steps, in order, whose output is not fresh against the input.
pub open spec fn stale_steps(outputs: Seq<Option<Timestamp>>, input_modified: Timestamp) -> Seq<
    int,
>
    decreases outputs.len(),
{
    if outputs.len() == 0 {
        Seq::empty()
    } else {
        let rest = stale_steps(outputs.drop_last(), input_modified);
        if fresh(outputs.last(), input_modified) {
            rest
        } else {
            rest.push(outputs.len() - 1)
        }
    }
}

/// Step `i` is planned exactly when its output is not fresh.
pub proof fn lemma_stale_steps_members(
    outputs: Seq<Option<Timestamp>>,
    input_modified: Timestamp,
    i: int,
)
    requires
        0 <= i < outputs.len(),
    ensures
        stale_steps(outputs, input_modified).contains(i) <==> !fresh(outputs[i], input_modified),
    decreases outputs.len(),
{
    lemma_stale_steps_range(outputs.drop_last(), input_modified);
    if i < outputs.len() - 1 {
        lemma_stale_steps_members(outputs.drop_last(), input_modified, i);
        let rest = stale_steps(outputs.drop_last(), input_modified);
        if !fresh(outputs.last(), input_modified) {
            assert(rest.push(outputs.len() - 1).contains(i) <==> rest.contains(i)) by {
                if rest.push(outputs.len() - 1).contains(i) {
                    let pushed = rest.push(outputs.len() - 1);
                    let k = choose|k: int| 0 <= k < pushed.len() && #[trigger] pushed[k] == i;
                    if k < rest.len() {
                        assert(rest[k] == i);
                    }
                }
                if rest.contains(i) {
                    let k = choose|k: int| 0 <= k < rest.len() && #[trigger] rest[k] == i;
                    assert(rest.push(outputs.len() - 1)[k] == i);
                }
            }
        }
    } else {
        let rest = stale_steps(outputs.drop_last(), input_modified);
        if !fresh(outputs.last(), input_modified) {
            assert(rest.push(outputs.len() - 1)[rest.len() as int] == i);
        }
    }
}

/// A step whose output is fresh shares its output path with no planned job,
/// wherever the paths of distinct steps differ.
pub proof fn lemma_fresh_step_path_unplanned(
    outputs: Seq<Option<Timestamp>>,
    input_modified: Timestamp,
    out_dir: Seq<char>,
    stem: Seq<char>,
    i: int,
)
    requires
        0 <= i < outputs.len(),
        fresh(outputs[i], input_modified),
        forall|a: nat, b: nat|
            a < outputs.len() && b < outputs.len() && a != b ==> #[trigger] output_path_of(
                out_dir,
                stem,
                a,
            ) != #[trigger] output_path_of(out_dir, stem, b),
    ensures
        forall|k: int|
            0 <= k < stale_steps(outputs, input_modified).len() ==> output_path_of(
                out_dir,
                stem,
                #[trigger] stale_steps(outputs, input_modified)[k] as nat,
            ) != output_path_of(out_dir, stem, i as nat),
{
    lemma_stale_steps_members(outputs, input_modified, i);
    lemma_stale_steps_range(outputs, input_modified);
    let st = stale_steps(outputs, input_modified);
    assert forall|k: int| 0 <= k < st.len() implies output_path_of(
        out_dir,
        stem,
        #[trigger] st[k] as nat,
    ) != output_path_of(out_dir, stem, i as nat) by {
        assert(st.contains(st[k]));
        assert(st[k] != i);
        assert(output_path_of(out_dir, stem, st[k] as nat) != output_path_of(out_dir, stem, i as nat));
    }
}

proof fn lemma_stale_steps_range(outputs: Seq<Option<Timestamp>>, input_modified: Timestamp)
    ensures
        forall|k: int|
            0 <= k < stale_steps(outputs, input_modified).len() ==> 0 <= #[trigger] stale_steps(
                outputs,
                input_modified,
            )[k] < outputs.len(),
    decreases outputs.len(),
{
    if outputs.len() > 0 {
        lemma_stale_steps_range(outputs.drop_last(), input_modified);
        let rest = stale_steps(outputs.drop_last(), input_modified);
        let all = stale_steps(outputs, input_modified);
        assert forall|k: int| 0 <= k < all.len() implies 0 <= #[trigger] all[k] < outputs.len() by {
            if k < rest.len() {
                assert(all[k] == rest[k]);
            }
        }
    }
}

/// Re-planning with every output fresh plans no job at all.
pub proof fn lemma_all_fresh_plans_nothing(
    outputs: Seq<Option<Timestamp>>,
    input_modified: Timestamp,
)
    requires
        forall|i: int| 0 <= i < outputs.len() ==> fresh(#[trigger] outputs[i], input_modified),
    ensures
        stale_steps(outputs, input_modified).len() == 0,
    decreases outputs.len(),
{
    if outputs.len() > 0 {
        lemma_all_fresh_plans_nothing(outputs.drop_last(), input_modified);
    }
}

/// With no output present yet, every step is planned, in order.
pub proof fn lemma_no_outputs_plans_all(
    outputs: Seq<Option<Timestamp>>,
    input_modified: Timestamp,
)
    requires
        forall|i: int| 0 <= i < outputs.len() ==> (#[trigger] outputs[i]) is None,
    ensures
        stale_steps(outputs, input_modified) == Seq::new(outputs.len(), |i: int| i),
    decreases outputs.len(),
{
    if outputs.len() > 0 {
        lemma_no_outputs_plans_all(outputs.drop_last(), input_modified);
        assert(stale_steps(outputs, input_modified) =~= Seq::new(outputs.len(), |i: int| i));
    }
}

/// The image name of step `idx` of the file with stem `stem`.
pub fn output_name(stem: &str, idx: usize) -> (r: String)
    ensures
        r@ == output_file_name(stem@, idx as nat),
{
    proof {
        reveal_strlit("-");
        reveal_strlit(".png");
    }
    let mut s = String::from_str(stem);
    s.append("-");
    push_decimal(&mut s, idx);
    s.append(".png");
    assert(s@ =~= output_file_name(stem@, idx as nat));
    s
}

/// The output paths of the first `steps` steps of the file with stem `stem`.
pub fn step_output_paths(out_dir: &str, stem: &str, steps: usize) -> (r: Vec<String>)
    ensures
        r@.len() == steps,
        forall|i: int| 0 <= i < steps ==> #[trigger] r@[i]@ == output_path_of(out_dir@, stem@, i as nat),
{
    let mut r: Vec<String> = Vec::new();
    let mut i: usize = 0;
    while i < steps
        invariant
            i <= steps,
            r@.len() == i,
            forall|k: int| 0 <= k < i ==> #[trigger] r@[k]@ == output_path_of(out_dir@, stem@, k as nat),
        decreases steps - i,
    {
        let name = output_name(stem, i);
        r.push(join_path(out_dir, name.as_str()));
        i = i + 1;
    }
    r
}

/// The renderer's arguments for one step.
pub fn job_args(flags: &Vec<String>, output_path: &String, selector: &String, input_path: &String) -> (r:
    Vec<String>)
    ensures
        views(r@) == job_arguments(views(flags@), output_path@, selector@, input_path@),
{
    proof {
        reveal_strlit("-o");
        reveal_strlit("--layers");
    }
    let mut r: Vec<String> = Vec::new();
    let mut i: usize = 0;
    while i < flags.len()
        invariant
            i <= flags@.len(),
            r@.len() == i,
            forall|k: int| 0 <= k < i ==> #[trigger] r@[k]@ == flags@[k]@,
        decreases flags.len() - i,
    {
        r.push(flags[i].clone());
        i = i + 1;
    }
    r.push(String::from_str("-o"));
    r.push(output_path.clone());
    r.push(String::from_str("--layers"));
    r.push(selector.clone());
    r.push(input_path.clone());
    let ghost want = job_arguments(views(flags@), output_path@, selector@, input_path@);
    assert forall|k: int| 0 <= k < flags@.len() implies views(r@)[k] == want[k] by {
        assert(r@[k]@ == flags@[k]@);
    }
    assert(views(r@) =~= want);
    r
}

impl DrawioExportStep {
    /// A job writing `output_path` from `input_path` with the renderer's `args`.
    pub fn new(
        output_path: String,
        input_path: String,
        old_modified_time: Option<Timestamp>,
        args: Vec<String>,
    ) -> (r: Self)
        ensures
            r.output_path == output_path,
            r.input_path == input_path,
            r.old_modified_time == old_modified_time,
            r.args == args,
    {
        DrawioExportStep { output_path, input_path, old_modified_time, args }
    }
}

/// Step `idx` of a plan, as its job: written to `output_path_of(out_dir, stem, idx)`,
/// with the output's earlier modification time and the renderer's arguments.
pub open spec fn is_planned_job(
    job: DrawioExportStep,
    input_path: Seq<char>,
    stem: Seq<char>,
    config: BuildConfig,
    out_dir: Seq<char>,
    outputs: Seq<Option<Timestamp>>,
    idx: int,
) -> bool {
    &&& job.output_path@ == output_path_of(out_dir, stem, idx as nat)
    &&& job.input_path@ == input_path
    &&& job.old_modified_time == outputs[idx]
    &&& views(job.args@) == job_arguments(
        views(config.flags@),
        output_path_of(out_dir, stem, idx as nat),
        plan_selectors(config.layer_config)[idx],
        input_path,
    )
}

/// Plans the jobs of one input file. `output_modified` holds, for each step of
/// the plan, the modification time of its output (`None`: it does not exist).
/// A step whose output is fresh gets no job; every other step gets one, in
/// the plan's order.
pub fn create_job(
    input_path: &String,
    stem: &String,
    input_modified: Timestamp,
    config: &BuildConfig,
    out_dir: &String,
    output_modified: &Vec<Option<Timestamp>>,
) -> (r: Vec<DrawioExportStep>)
    requires
        output_modified@.len() == plan_selectors(config.layer_config).len(),
    ensures
        r@.len() == stale_steps(output_modified@, input_modified).len(),
        forall|j: int|
            0 <= j < r@.len() ==> is_planned_job(
                #[trigger] r@[j],
                input_path@,
                stem@,
                *config,
                out_dir@,
                output_modified@,
                stale_steps(output_modified@, input_modified)[j],
            ),
{
    let steps = assemble_layer_cli_flag(&config.layer_config);
    let paths = step_output_paths(out_dir.as_str(), stem.as_str(), steps.len());
    let mut jobs: Vec<DrawioExportStep> = Vec::new();
    let mut i: usize = 0;
    while i < steps.len()
        invariant
            i <= steps@.len(),
            steps@.len() == output_modified@.len(),
            steps@.len() == plan_selectors(config.layer_config).len(),
            forall|k: int| 0 <= k < steps@.len() ==> #[trigger] steps@[k]@ == plan_selectors(config.layer_config)[k],
            paths@.len() == steps@.len(),
            forall|k: int| 0 <= k < steps@.len() ==> #[trigger] paths@[k]@ == output_path_of(out_dir@, stem@, k as nat),
            jobs@.len() == stale_steps(output_modified@.take(i as int), input_modified).len(),
            forall|j: int|
                0 <= j < jobs@.len() ==> is_planned_job(
                    #[trigger] jobs@[j],
                    input_path@,
                    stem@,
                    *config,
                    out_dir@,
                    output_modified@,
                    stale_steps(output_modified@.take(i as int), input_modified)[j],
                ),
        decreases steps.len() - i,
    {
        proof {
            lemma_stale_steps_range(output_modified@.take(i as int), input_modified);
            assert(output_modified@.take(i + 1).drop_last() =~= output_modified@.take(i as int));
        }
        let old_modified_time = output_modified[i];
        if !is_fresh(old_modified_time, input_modified) {
            let args = job_args(&config.flags, &paths[i], &steps[i], input_path);
            let job = DrawioExportStep::new(
                paths[i].clone(),
                input_path.clone(),
                old_modified_time,
                args,
            );
            jobs.push(job);
        }
        i = i + 1;
    }
    assert(output_modified@.take(steps@.len() as int) =~= output_modified@);
    jobs
}

} // verus!
