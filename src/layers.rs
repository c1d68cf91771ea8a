//! Layer plans: which layers each export step of a diagram shows, and how a
//! step's selection is written on the renderer's command line.

use vstd::prelude::*;

verus! {

/// How the export steps of one diagram select its layers.
pub enum LayerConfig {
    /// Number of layers. Exports [0], [0,1], [0,1,2], ...
    Incremental(usize),
    /// For each export step, the layers and their order.
    /// `[[0, 2], [0, 1]]` exports layers 0 and 2 in the first step
    /// and layers 0 and 1 in the second.
    Custom(Vec<Vec<u8>>),
}

/// The character of a decimal digit.
pub open spec fn digit_char(d: nat) -> char {
    if d == 0 { '0' }
    else if d == 1 { '1' }
    else if d == 2 { '2' }
    else if d == 3 { '3' }
    else if d == 4 { '4' }
    else if d == 5 { '5' }
    else if d == 6 { '6' }
    else if d == 7 { '7' }
    else if d == 8 { '8' }
    else { '9' }
}

/// The decimal rendering of a natural number, without leading zeros.
pub open spec fn decimal(n: nat) -> Seq<char>
    decreases n,
{
    if n < 10 {
        seq![digit_char(n)]
    } else {
        decimal(n / 10).push(digit_char(n % 10))
    }
}

/// Indices written in decimal and separated by commas.
pub open spec fn join_indices(ix: Seq<nat>) -> Seq<char>
    decreases ix.len(),
{
    if ix.len() == 0 {
        Seq::empty()
    } else if ix.len() == 1 {
        decimal(ix[0])
    } else {
        join_indices(ix.drop_last()) + seq![','] + decimal(ix.last())
    }
}

/// The selector of incremental step `k`: the layers `0..=k`.
pub open spec fn incremental_selector(k: nat) -> Seq<char> {
    join_indices(Seq::new(k + 1, |i: int| i as nat))
}

/// The selector of an explicit list of layer indices, kept in its order.
pub open spec fn custom_selector(v: Seq<u8>) -> Seq<char> {
    join_indices(v.map_values(|x: u8| x as nat))
}

/// Number of steps of an incremental plan: a count of zero still gives one step.
pub open spec fn incremental_steps(n: nat) -> nat {
    if n == 0 { 1 } else { n }
}

/// The selectors of a plan, one per export step, in order.
pub open spec fn plan_selectors(c: LayerConfig) -> Seq<Seq<char>> {
    match c {
        LayerConfig::Incremental(n) => Seq::new(
            incremental_steps(n as nat),
            |k: int| incremental_selector(k as nat),
        ),
        LayerConfig::Custom(v) => Seq::new(v@.len(), |k: int| custom_selector(v@[k]@)),
    }
}

fn digit_str(d: usize) -> (r: &'static str)
    requires
        d < 10,
    ensures
        r@ == seq![digit_char(d as nat)],
{
    proof {
        reveal_strlit("0");
        reveal_strlit("1");
        reveal_strlit("2");
        reveal_strlit("3");
        reveal_strlit("4");
        reveal_strlit("5");
        reveal_strlit("6");
        reveal_strlit("7");
        reveal_strlit("8");
        reveal_strlit("9");
    }
    match d {
        0 => "0",
        1 => "1",
        2 => "2",
        3 => "3",
        4 => "4",
        5 => "5",
        6 => "6",
        7 => "7",
        8 => "8",
        _ => "9",
    }
}

/// Appends the decimal rendering of `n` to `s`.
pub fn push_decimal(s: &mut String, n: usize)
    ensures
        final(s)@ == old(s)@ + decimal(n as nat),
    decreases n,
{
    if n >= 10 {
        push_decimal(s, n / 10);
    }
    s.append(digit_str(n % 10));
    assert(s@ =~= old(s)@ + decimal(n as nat));
}

/// The decimal rendering of `n`.
pub fn decimal_string(n: usize) -> (r: String)
    ensures
        r@ == decimal(n as nat),
{
    let mut s = String::new();
    push_decimal(&mut s, n);
    assert(s@ =~= decimal(n as nat));
    s
}

proof fn lemma_incremental_step(k: nat)
    ensures
        incremental_selector(k + 1) == incremental_selector(k) + seq![','] + decimal(k + 1),
{
    let ix = Seq::new(k + 2, |i: int| i as nat);
    assert(ix.drop_last() =~= Seq::new(k + 1, |i: int| i as nat));
}

proof fn lemma_custom_step(v: Seq<u8>, j: int)
    requires
        0 < j < v.len(),
    ensures
        custom_selector(v.take(j + 1)) == custom_selector(v.take(j)) + seq![','] + decimal(
            v[j] as nat,
        ),
{
    let f = |x: u8| x as nat;
    assert(v.take(j + 1).map_values(f).drop_last() =~= v.take(j).map_values(f));
}

proof fn lemma_custom_first(v: Seq<u8>)
    requires
        0 < v.len(),
    ensures
        custom_selector(v.take(1)) == decimal(v[0] as nat),
{
}

/// The selector of one explicit list of layer indices.
fn custom_selector_string(v: &Vec<u8>) -> (r: String)
    ensures
        r@ == custom_selector(v@),
{
    let mut s = String::new();
    let mut j: usize = 0;
    while j < v.len()
        invariant
            j <= v@.len(),
            s@ == custom_selector(v@.take(j as int)),
        decreases v.len() - j,
    {
        if j == 0 {
            push_decimal(&mut s, v[j] as usize);
            proof {
                lemma_custom_first(v@);
                assert(s@ =~= custom_selector(v@.take(1)));
            }
        } else {
            proof {
                reveal_strlit(",");
                lemma_custom_step(v@, j as int);
            }
            s.append(",");
            push_decimal(&mut s, v[j] as usize);
            assert(s@ =~= custom_selector(v@.take(j + 1)));
        }
        j = j + 1;
    }
    assert(v@.take(v.len() as int) =~= v@);
    s
}

/// Converts a layer plan to the selectors passed to the renderer, one per
/// export step, in order.
pub fn assemble_layer_cli_flag(config: &LayerConfig) -> (r: Vec<String>)
    ensures
        r@.len() == plan_selectors(*config).len(),
        forall|k: int| 0 <= k < r@.len() ==> #[trigger] r@[k]@ == plan_selectors(*config)[k],
{
    let mut result: Vec<String> = Vec::new();
    match config {
        LayerConfig::Incremental(layer_count) => {
            let mut buf = String::new();
            push_decimal(&mut buf, 0);
            assert(buf@ == incremental_selector(0));
            result.push(buf.clone());
            let mut layer: usize = 1;
            while layer < *layer_count
                invariant
                    1 <= layer,
                    layer <= incremental_steps(*layer_count as nat),
                    result@.len() == layer,
                    buf@ == incremental_selector((layer - 1) as nat),
                    forall|k: int| 0 <= k < layer ==> #[trigger] result@[k]@ == incremental_selector(k as nat),
                decreases *layer_count - layer,
            {
                proof {
                    reveal_strlit(",");
                    lemma_incremental_step((layer - 1) as nat);
                }
                buf.append(",");
                push_decimal(&mut buf, layer);
                assert(buf@ =~= incremental_selector(layer as nat));
                result.push(buf.clone());
                layer = layer + 1;
            }
        },
        LayerConfig::Custom(v) => {
            let mut i: usize = 0;
            while i < v.len()
                invariant
                    i <= v@.len(),
                    result@.len() == i,
                    forall|k: int| 0 <= k < i ==> #[trigger] result@[k]@ == custom_selector(v@[k]@),
                decreases v.len() - i,
            {
                let s = custom_selector_string(&v[i]);
                result.push(s);
                i = i + 1;
            }
        },
    }
    result
}


/// Per-file override: the export steps of the file called `name`.
pub struct DrawioFileConfig {
    pub name: String,
    pub order: Vec<Vec<u8>>,
}

/// The optional configuration document.
pub struct DrawioConfig {
    pub individual_configs: Option<Vec<DrawioFileConfig>>,
}

/// The explicit steps of an override as plain sequences.
pub open spec fn order_view(order: Vec<Vec<u8>>) -> Seq<Seq<u8>> {
    Seq::new(order@.len(), |k: int| order@[k]@)
}

/// The index of the last override named `name`; a later entry replaces an
/// earlier one of the same name.
pub open spec fn last_override(cs: Seq<DrawioFileConfig>, name: Seq<char>) -> Option<int>
    decreases cs.len(),
{
    if cs.len() == 0 {
        None
    } else if cs.last().name@ == name {
        Some(cs.len() - 1)
    } else {
        last_override(cs.drop_last(), name)
    }
}

/// The overrides of a configuration, none where it lists none.
pub open spec fn overrides(c: DrawioConfig) -> Seq<DrawioFileConfig> {
    match c.individual_configs {
        Some(v) => v@,
        None => Seq::empty(),
    }
}

/// The selectors of the explicit steps `order`.
pub open spec fn custom_plan(order: Seq<Seq<u8>>) -> Seq<Seq<char>> {
    Seq::new(order.len(), |k: int| custom_selector(order[k]))
}

/// The selectors used for the file called `name` with `layer_count` detected
/// layers: its override verbatim where it has one, else the incremental plan.
pub open spec fn resolved_plan(c: DrawioConfig, name: Seq<char>, layer_count: nat) -> Seq<Seq<char>> {
    match last_override(overrides(c), name) {
        Some(i) => custom_plan(order_view(overrides(c)[i].order)),
        None => Seq::new(incremental_steps(layer_count), |k: int| incremental_selector(k as nat)),
    }
}

proof fn lemma_last_override_bounds(cs: Seq<DrawioFileConfig>, name: Seq<char>)
    ensures
        last_override(cs, name) matches Some(i) ==> 0 <= i < cs.len() && cs[i].name@ == name,
    decreases cs.len(),
{
    if cs.len() > 0 && cs.last().name@ != name {
        lemma_last_override_bounds(cs.drop_last(), name);
    }
}

/// A copy of explicit export steps.
fn copy_order(order: &Vec<Vec<u8>>) -> (r: Vec<Vec<u8>>)
    ensures
        order_view(r) == order_view(*order),
{
    let mut r: Vec<Vec<u8>> = Vec::new();
    let mut i: usize = 0;
    while i < order.len()
        invariant
            i <= order@.len(),
            r@.len() == i,
            forall|k: int| 0 <= k < i ==> #[trigger] r@[k]@ == order@[k]@,
        decreases order.len() - i,
    {
        let inner = &order[i];
        let mut step: Vec<u8> = Vec::new();
        let mut j: usize = 0;
        while j < inner.len()
            invariant
                j <= inner@.len(),
                step@ == inner@.take(j as int),
            decreases inner.len() - j,
        {
            step.push(inner[j]);
            j = j + 1;
            assert(step@ =~= inner@.take(j as int));
        }
        assert(inner@.take(inner@.len() as int) =~= inner@);
        r.push(step);
        i = i + 1;
    }
    assert(order_view(r) =~= order_view(*order));
    r
}

impl Default for DrawioConfig {
    /// A configuration without overrides.
    fn default() -> (r: DrawioConfig)
        ensures
            r.individual_configs is None,
    {
        DrawioConfig { individual_configs: None }
    }
}

impl DrawioConfig {
    /// The index among the overrides of the last one named `name`.
    pub fn find_override(&self, name: &String) -> (r: Option<usize>)
        ensures
            r matches Some(i) ==> Some(i as int) == last_override(overrides(*self), name@),
            r is None ==> last_override(overrides(*self), name@) is None,
    {
        match &self.individual_configs {
            None => None,
            Some(cs) => {
                let mut i: usize = cs.len();
                assert(cs@.take(i as int) =~= cs@);
                while i > 0
                    invariant
                        i <= cs@.len(),
                        cs@ == overrides(*self),
                        last_override(cs@, name@) == last_override(cs@.take(i as int), name@),
                    decreases i,
                {
                    assert(cs@.take(i as int).drop_last() =~= cs@.take(i - 1));
                    if cs[i - 1].name == *name {
                        return Some(i - 1);
                    }
                    i = i - 1;
                }
                None
            },
        }
    }

    /// The layer plan of the file called `name` with `layer_count` detected
    /// layers. An override is taken verbatim, however many steps it has; the
    /// detected count then plays no part.
    pub fn layer_config_for(&self, name: &String, layer_count: usize) -> (r: LayerConfig)
        ensures
            plan_selectors(r) == resolved_plan(*self, name@, layer_count as nat),
            last_override(overrides(*self), name@) is None ==> r == LayerConfig::Incremental(
                layer_count,
            ),
    {
        proof {
            lemma_last_override_bounds(overrides(*self), name@);
        }
        match self.find_override(name) {
            Some(i) => {
                let cs = self.individual_configs.as_ref().unwrap();
                let order = copy_order(&cs[i].order);
                let r = LayerConfig::Custom(order);
                assert(plan_selectors(r) =~= resolved_plan(*self, name@, layer_count as nat));
                r
            },
            None => LayerConfig::Incremental(layer_count),
        }
    }
}

/// An incremental plan over `n >= 1` layers has exactly `n` selectors; the
/// `k`-th lists the layers `0..=k`, and each one extends the one before by
/// the next layer.
pub proof fn lemma_incremental_plan(n: usize)
    requires
        n >= 1,
    ensures
        plan_selectors(LayerConfig::Incremental(n)).len() == n,
        forall|k: int|
            0 <= k < n ==> #[trigger] plan_selectors(LayerConfig::Incremental(n))[k] == join_indices(
                Seq::new((k + 1) as nat, |i: int| i as nat),
            ),
        forall|k: int|
            0 <= k < n - 1 ==> #[trigger] plan_selectors(LayerConfig::Incremental(n))[k + 1] == plan_selectors(
                LayerConfig::Incremental(n),
            )[k] + seq![','] + decimal((k + 1) as nat),
{
    assert forall|k: int| 0 <= k < n - 1 implies #[trigger] plan_selectors(
        LayerConfig::Incremental(n),
    )[k + 1] == plan_selectors(LayerConfig::Incremental(n))[k] + seq![','] + decimal(
        (k + 1) as nat,
    ) by {
        lemma_incremental_step(k as nat);
    }
}

/// A custom plan is its list of index lists, each written comma-joined, in
/// the order given.
pub proof fn lemma_custom_plan(order: Vec<Vec<u8>>)
    ensures
        plan_selectors(LayerConfig::Custom(order)) == custom_plan(order_view(order)),
{
    assert(plan_selectors(LayerConfig::Custom(order)) =~= custom_plan(order_view(order)));
}

/// An override decides the plan of its file alone: two files of that name
/// with any detected layer counts get the same selectors, one per step of the
/// override.
pub proof fn lemma_override_ignores_layer_count(
    c: DrawioConfig,
    name: Seq<char>,
    count_a: nat,
    count_b: nat,
)
    requires
        last_override(overrides(c), name) is Some,
    ensures
        resolved_plan(c, name, count_a) == resolved_plan(c, name, count_b),
        resolved_plan(c, name, count_a) == custom_plan(
            order_view(overrides(c)[last_override(overrides(c), name)->Some_0].order),
        ),
{
}

} // verus!
