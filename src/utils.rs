use vstd::prelude::*;

verus! {

/// How presented frames are paced against the display's refresh.
#[derive(Clone, Copy, Debug, PartialEq, Eq, Structural)]
pub enum PresentMode {
    AutoVsync,
    AutoNoVsync,
    Fifo,
    FifoRelaxed,
    Immediate,
    Mailbox,
}

/// `desired[i]` is supported and no desired mode before it is.
pub open spec fn is_first_supported(
    supported: Seq<PresentMode>,
    desired: Seq<PresentMode>,
    i: int,
) -> bool {
    &&& 0 <= i < desired.len()
    &&& supported.contains(desired[i])
    &&& forall|j: int| 0 <= j < i ==> !supported.contains(#[trigger] desired[j])
}

fn is_supported(supported: &Vec<PresentMode>, mode: PresentMode) -> (r: bool)
    ensures
        r == supported@.contains(mode),
{
    let mut k: usize = 0;
    while k < supported.len()
        invariant
            k <= supported@.len(),
            forall|j: int| 0 <= j < k ==> supported@[j] != mode,
        decreases supported@.len() - k,
    {
        if supported[k] == mode {
            return true;
        }
        k = k + 1;
    }
    false
}

/// Select the first desired present mode that is supported, or `None` when no desired
/// mode is.
pub fn select_prefered_presentmode(
    supported_modes: &Vec<PresentMode>,
    desired_modes: &Vec<PresentMode>,
) -> (r: Option<PresentMode>)
    ensures
        r is Some ==> exists|i: int|
            is_first_supported(supported_modes@, desired_modes@, i) && desired_modes@[i]
                == r->0,
        r is None ==> forall|j: int|
            0 <= j < desired_modes@.len() ==> !supported_modes@.contains(
                #[trigger] desired_modes@[j],
            ),
{
    let mut i: usize = 0;
    while i < desired_modes.len()
        invariant
            i <= desired_modes@.len(),
            forall|j: int|
                0 <= j < i ==> !supported_modes@.contains(#[trigger] desired_modes@[j]),
        decreases desired_modes@.len() - i,
    {
        let mode = desired_modes[i];
        if is_supported(supported_modes, mode) {
            assert(is_first_supported(supported_modes@, desired_modes@, i as int));
            return Some(mode);
        }
        i = i + 1;
    }
    None
}

/// Pairs each binding with its index, counting from zero in the order given; the
/// binding numbers that a layout and the groups built on it share.
pub fn number_bindings<T>(bindings: Vec<T>) -> (r: Vec<(u32, T)>)
    requires
        bindings@.len() <= u32::MAX,
    ensures
        r@.len() == bindings@.len(),
        forall|i: int| 0 <= i < r@.len() ==> #[trigger] r@[i] == (i as u32, bindings@[i]),
{
    let ghost all = bindings@;
    let mut rest = bindings;
    let mut entries: Vec<(u32, T)> = Vec::new();
    let mut counter: u32 = 0;
    while rest.len() > 0
        invariant
            all.len() <= u32::MAX,
            counter as int + rest@.len() == all.len(),
            entries@.len() == counter,
            rest@ == all.subrange(counter as int, all.len() as int),
            forall|i: int| 0 <= i < counter ==> #[trigger] entries@[i] == (i as u32, all[i]),
        decreases rest@.len(),
    {
        let binding = rest.remove(0);
        entries.push((counter, binding));
        assert(rest@ =~= all.subrange(counter + 1, all.len() as int));
        counter = counter + 1;
    }
    entries
}

} // verus!
