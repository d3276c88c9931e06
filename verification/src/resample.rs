use vstd::prelude::*;

verus! {

/// The sample rate that the inference engine expects, in Hz.
pub const TARGET_SAMPLE_RATE: u32 = 16000;

/// By how much a stream at `rate` Hz is decimated: the ratio to the target
/// rate where `rate` is a whole multiple of it, and 1 (samples pass through
/// as they come) for every other rate.
pub open spec fn decimation_ratio(rate: u32) -> int {
    if rate >= TARGET_SAMPLE_RATE && rate % TARGET_SAMPLE_RATE == 0 {
        rate as int / TARGET_SAMPLE_RATE as int
    } else {
        1
    }
}

/// The decimation ratio for a device that delivers `rate` samples a second.
pub fn decimation_factor(rate: u32) -> (n: usize)
    ensures
        n == decimation_ratio(rate),
        1 <= n <= u32::MAX / TARGET_SAMPLE_RATE,
{
    if rate >= TARGET_SAMPLE_RATE && rate % TARGET_SAMPLE_RATE == 0 {
        (rate / TARGET_SAMPLE_RATE) as usize
    } else {
        1
    }
}

/// Point decimation of `s` by `n`: the first sample of each complete group
/// of `n`, in order.
pub open spec fn decimated<T>(s: Seq<T>, n: int) -> Seq<T> {
    Seq::new((s.len() as int / n) as nat, |k: int| s[k * n])
}

/// The samples of `s` behind its last complete group of `n`.
pub open spec fn leftover<T>(s: Seq<T>, n: int) -> Seq<T> {
    s.subrange((s.len() as int / n) * n, s.len() as int)
}

/// What the pipeline holds: the samples it has emitted and the samples of
/// the group that is not complete yet.
pub struct PipelineState<T> {
    pub emitted: Seq<T>,
    pub pending: Seq<T>,
}

/// The pipeline that has seen nothing.
pub open spec fn idle_pipeline<T>() -> PipelineState<T> {
    PipelineState { emitted: Seq::empty(), pending: Seq::empty() }
}

/// The pipeline after one more callback delivered `chunk`.
pub open spec fn fed<T>(state: PipelineState<T>, chunk: Seq<T>, n: int) -> PipelineState<T> {
    let all = state.pending + chunk;
    PipelineState { emitted: state.emitted + decimated(all, n), pending: leftover(all, n) }
}

/// The pipeline after the callbacks delivered `chunks`, one after the other.
pub open spec fn fed_all<T>(state: PipelineState<T>, chunks: Seq<Seq<T>>, n: int) -> PipelineState<
    T,
>
    decreases chunks.len(),
{
    if chunks.len() == 0 {
        state
    } else {
        fed(fed_all(state, chunks.drop_last(), n), chunks.last(), n)
    }
}

/// All samples of `chunks` as one stream.
pub open spec fn joined<T>(chunks: Seq<Seq<T>>) -> Seq<T>
    decreases chunks.len(),
{
    if chunks.len() == 0 {
        Seq::empty()
    } else {
        joined(chunks.drop_last()) + chunks.last()
    }
}

/// Where the last complete group of `len` samples ends.
pub proof fn lemma_group_bounds(len: int, n: int)
    requires
        0 <= len,
        1 <= n,
    ensures
        0 <= len / n,
        (len / n) * n <= len < (len / n) * n + n,
{
    vstd::arithmetic::div_mod::lemma_fundamental_div_mod(len, n);
    vstd::arithmetic::div_mod::lemma_mod_pos_bound(len, n);
    vstd::arithmetic::div_mod::lemma_div_pos_is_pos(len, n);
    assert(n * (len / n) == (len / n) * n) by (nonlinear_arith);
}

/// The `k`-th group of `q` complete groups of `n` lies below `q * n`.
pub proof fn lemma_group_start(k: int, q: int, n: int)
    requires
        0 <= k < q,
        1 <= n,
    ensures
        0 <= k * n,
        k * n + n <= q * n,
{
    assert(0 <= k * n) by (nonlinear_arith)
        requires
            0 <= k,
            1 <= n,
    ;
    assert(k * n + n <= q * n) by (nonlinear_arith)
        requires
            k + 1 <= q,
            1 <= n,
    ;
}

/// Decimation emits one sample for every `n` it is given, the first of each
/// complete group, so order is kept.
pub proof fn lemma_decimated_samples<T>(s: Seq<T>, n: int)
    requires
        1 <= n,
    ensures
        decimated(s, n).len() == s.len() as int / n,
        (s.len() as int / n) * n <= s.len(),
        forall|k: int| 0 <= k < s.len() as int / n ==> #[trigger] decimated(s, n)[k] == s[k * n],
        leftover(s, n).len() == s.len() as int % n,
        leftover(s, n).len() < n,
{
    lemma_group_bounds(s.len() as int, n);
    vstd::arithmetic::div_mod::lemma_fundamental_div_mod(s.len() as int, n);
    assert(n * (s.len() as int / n) == (s.len() as int / n) * n) by (nonlinear_arith);
}

/// Behind a prefix made of complete groups, decimation goes on as if it
/// started afresh.
pub proof fn lemma_decimated_after_groups<T>(p: Seq<T>, r: Seq<T>, n: int)
    requires
        1 <= n,
        p.len() as int % n == 0,
    ensures
        decimated(p + r, n) == decimated(p, n) + decimated(r, n),
        leftover(p + r, n) == leftover(r, n),
{
    let q = p.len() as int / n;
    let rq = r.len() as int / n;
    lemma_group_bounds(p.len() as int, n);
    lemma_group_bounds(r.len() as int, n);
    vstd::arithmetic::div_mod::lemma_fundamental_div_mod(p.len() as int, n);
    assert(p.len() == q * n) by (nonlinear_arith)
        requires
            p.len() == n * q + 0,
    ;
    assert((q + rq) * n == q * n + rq * n) by (nonlinear_arith);
    vstd::arithmetic::div_mod::lemma_fundamental_div_mod_converse(
        (p + r).len() as int,
        n,
        q + rq,
        r.len() as int - rq * n,
    );
    assert((p + r).len() as int / n == q + rq);
    let whole = decimated(p + r, n);
    let parts = decimated(p, n) + decimated(r, n);
    assert(whole.len() == parts.len());
    assert forall|k: int| 0 <= k < whole.len() implies whole[k] == parts[k] by {
        if k < q {
            lemma_group_start(k, q, n);
        } else {
            lemma_group_start(k - q, rq, n);
            assert(k * n == q * n + (k - q) * n) by (nonlinear_arith);
        }
    }
    assert(whole =~= parts);
    assert(leftover(p + r, n) =~= leftover(r, n));
}

/// Feeding one more chunk gives what decimating the longer stream gives.
pub proof fn lemma_fed_extends<T>(stream: Seq<T>, chunk: Seq<T>, n: int)
    requires
        1 <= n,
    ensures
        fed(
            PipelineState { emitted: decimated(stream, n), pending: leftover(stream, n) },
            chunk,
            n,
        ) == (PipelineState {
            emitted: decimated(stream + chunk, n),
            pending: leftover(stream + chunk, n),
        }),
{
    let q = stream.len() as int / n;
    lemma_group_bounds(stream.len() as int, n);
    let p = stream.subrange(0, q * n);
    let rest = leftover(stream, n);
    assert(stream =~= p + rest);
    vstd::arithmetic::div_mod::lemma_fundamental_div_mod_converse(p.len() as int, n, q, 0);
    lemma_decimated_after_groups(p, rest, n);
    lemma_decimated_after_groups(p, rest + chunk, n);
    vstd::arithmetic::div_mod::lemma_fundamental_div_mod_converse(
        rest.len() as int,
        n,
        0,
        rest.len() as int,
    );
    assert(decimated(rest, n) =~= Seq::<T>::empty());
    assert(p + (rest + chunk) =~= stream + chunk);
    assert(decimated(stream, n) =~= decimated(p, n));
    assert(decimated(stream, n) + decimated(rest + chunk, n) =~= decimated(stream + chunk, n));
}

/// However the callbacks cut the stream into chunks, the pipeline emits the
/// decimation of the whole stream: of `N` samples at ratio `n` exactly
/// `N / n`, rounded down, the `k`-th of them being sample `k * n` of the
/// stream; and it holds back the `N % n` samples of the incomplete group.
pub proof fn pipeline_emits_decimated_stream<T>(chunks: Seq<Seq<T>>, n: int)
    requires
        1 <= n,
    ensures
        fed_all(idle_pipeline(), chunks, n).emitted == decimated(joined(chunks), n),
        fed_all(idle_pipeline(), chunks, n).pending == leftover(joined(chunks), n),
        fed_all(idle_pipeline(), chunks, n).emitted.len() == joined(chunks).len() as int / n,
        (joined(chunks).len() as int / n) * n <= joined(chunks).len(),
        forall|k: int|
            0 <= k < joined(chunks).len() as int / n ==> #[trigger] fed_all(
                idle_pipeline(),
                chunks,
                n,
            ).emitted[k] == joined(chunks)[k * n],
    decreases chunks.len(),
{
    if chunks.len() == 0 {
        vstd::arithmetic::div_mod::lemma_fundamental_div_mod_converse(0, n, 0, 0);
        assert(decimated(joined(chunks), n) =~= Seq::<T>::empty());
        assert(leftover(joined(chunks), n) =~= Seq::<T>::empty());
    } else {
        pipeline_emits_decimated_stream(chunks.drop_last(), n);
        lemma_fed_extends(joined(chunks.drop_last()), chunks.last(), n);
    }
    lemma_decimated_samples(joined(chunks), n);
}

/// Runs one callback's worth of samples through the pipeline: `data` joins
/// the samples held back, every complete group of `factor` samples gives its
/// first sample to `out`, and what is left of an incomplete group is held
/// back for the next call.
pub fn resample_into<T: Copy>(pending: &mut Vec<T>, out: &mut Vec<T>, data: &[T], factor: usize)
    requires
        1 <= factor,
    ensures
        (PipelineState { emitted: final(out)@, pending: final(pending)@ }) == fed(
            PipelineState { emitted: old(out)@, pending: old(pending)@ },
            data@,
            factor as int,
        ),
{
    let ghost held = pending@;
    let ghost before = out@;
    let mut i: usize = 0;
    while i < data.len()
        invariant
            0 <= i <= data.len(),
            pending@ == held + data@.subrange(0, i as int),
        decreases data.len() - i,
    {
        pending.push(data[i]);
        assert(data@.subrange(0, i as int).push(data@[i as int]) =~= data@.subrange(0, i + 1));
        i += 1;
    }
    assert(data@.subrange(0, data.len() as int) =~= data@);
    let ghost all = pending@;
    let groups = pending.len() / factor;
    proof {
        lemma_group_bounds(all.len() as int, factor as int);
    }
    let mut g: usize = 0;
    while g < groups
        invariant
            1 <= factor,
            0 <= g <= groups,
            groups == all.len() as int / factor as int,
            groups * factor <= all.len(),
            pending@ == all,
            out@ == before + decimated(all, factor as int).subrange(0, g as int),
        decreases groups - g,
    {
        proof {
            lemma_group_start(g as int, groups as int, factor as int);
            assert(g * factor + factor <= groups * factor);
            assert(g * factor < pending.len());
        }
        let sample = pending[g * factor];
        out.push(sample);
        assert(decimated(all, factor as int).subrange(0, g as int).push(sample) =~= decimated(
            all,
            factor as int,
        ).subrange(0, g + 1));
        g += 1;
    }
    assert(decimated(all, factor as int).subrange(0, groups as int) =~= decimated(
        all,
        factor as int,
    ));
    let start = groups * factor;
    let mut rest: Vec<T> = Vec::new();
    let mut k: usize = start;
    while k < pending.len()
        invariant
            start <= k <= pending.len(),
            pending@ == all,
            rest@ == all.subrange(start as int, k as int),
        decreases pending.len() - k,
    {
        rest.push(pending[k]);
        assert(all.subrange(start as int, k as int).push(all[k as int]) =~= all.subrange(
            start as int,
            k + 1,
        ));
        k += 1;
    }
    *pending = rest;
}

} // verus!
