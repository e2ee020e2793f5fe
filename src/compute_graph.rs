//! Compute graphs: named-argument binding and launch.
use crate::aot_module::{contains_terminator, has_terminator, AotModule};
use crate::device::{can_share, args_of, release_module_table, DeviceState, GraphState, LaunchState, ModuleState};
use crate::element::Element;
use crate::error::{TaichiError, TaichiResult};
use crate::memory::same_instance;
use crate::ndarray::NdArray;
use crate::runtime::{Runtime, RuntimeState};
use crate::sys::{TiArgument, TiComputeGraph, TiError, TiNamedArgument, TiRuntime, TiScalar};
use crate::texture::Texture;
use vstd::prelude::*;

verus! {

/// A list of bindings, each a parameter name and its value.
pub type Bindings = Seq<(Seq<char>, TiArgument)>;

/// Whether some binding of the list is for `name`.
pub open spec fn binds(l: Bindings, name: Seq<char>) -> bool {
    exists|i: int| 0 <= i < l.len() && #[trigger] l[i].0 == name
}

/// Whether no two bindings of the list share a name.
pub open spec fn unique_names(l: Bindings) -> bool {
    forall|i: int, j: int| 0 <= i < l.len() && 0 <= j < l.len() && i != j ==> #[trigger] l[i].0
        != #[trigger] l[j].0
}

/// The list after binding `name` to `value`: a binding already there for the
/// name takes the new value in its place; otherwise the binding is added.
pub open spec fn bind(l: Bindings, name: Seq<char>, value: TiArgument) -> Bindings {
    if binds(l, name) {
        l.map_values(
            |e: (Seq<char>, TiArgument)|
                if e.0 == name {
                    (name, value)
                } else {
                    e
                },
        )
    } else {
        l.push((name, value))
    }
}

proof fn lemma_bind(l: Bindings, name: Seq<char>, value: TiArgument)
    requires
        unique_names(l),
    ensures
        unique_names(bind(l, name, value)),
        exists|i: int|
            0 <= i < bind(l, name, value).len() && #[trigger] bind(l, name, value)[i] == (
            name,
            value,
        ),
        forall|i: int|
            0 <= i < bind(l, name, value).len() && bind(l, name, value)[i].0 != name ==> i
                < l.len() && #[trigger] bind(l, name, value)[i] == l[i],
        forall|i: int| 0 <= i < l.len() && l[i].0 != name ==> #[trigger] bind(l, name, value)[i] == l[i],
{
    let r = bind(l, name, value);
    if binds(l, name) {
        let k = choose|i: int| 0 <= i < l.len() && #[trigger] l[i].0 == name;
        assert(r[k] == (name, value));
        assert forall|i: int, j: int|
            0 <= i < r.len() && 0 <= j < r.len() && i != j implies #[trigger] r[i].0
            != #[trigger] r[j].0 by {
            assert(r[i].0 == l[i].0);
            assert(r[j].0 == l[j].0);
        }
    } else {
        assert(r[l.len() as int] == (name, value));
        assert forall|i: int, j: int|
            0 <= i < r.len() && 0 <= j < r.len() && i != j implies #[trigger] r[i].0
            != #[trigger] r[j].0 by {
            if i < l.len() && j < l.len() {
            } else if i < l.len() {
                assert(l[i].0 != name);
            } else {
                assert(l[j].0 != name);
            }
        }
    }
}

/// Binding is order-independent as far as each name's latest value goes:
/// binding `a`, then `b`, then `a` again leaves exactly one binding for
/// each, and `a` holds its latest value.
pub proof fn lemma_latest_binding_wins(
    l: Bindings,
    a: Seq<char>,
    b: Seq<char>,
    first: TiArgument,
    other: TiArgument,
    latest: TiArgument,
)
    requires
        unique_names(l),
        a != b,
    ensures
        ({
            let r = bind(bind(bind(l, a, first), b, other), a, latest);
            &&& unique_names(r)
            &&& exists|i: int| 0 <= i < r.len() && #[trigger] r[i] == (a, latest)
            &&& exists|i: int| 0 <= i < r.len() && #[trigger] r[i] == (b, other)
            &&& forall|i: int, j: int|
                0 <= i < r.len() && 0 <= j < r.len() && r[i].0 == a && r[j].0 == a ==> i == j
        }),
{
    let l1 = bind(l, a, first);
    lemma_bind(l, a, first);
    let l2 = bind(l1, b, other);
    lemma_bind(l1, b, other);
    let r = bind(l2, a, latest);
    lemma_bind(l2, a, latest);
    let k = choose|i: int| 0 <= i < l2.len() && #[trigger] l2[i] == (b, other);
    assert(r[k] == l2[k]);
}

fn copy_named(a: &TiNamedArgument) -> (r: TiNamedArgument)
    ensures
        r.name@ == a.name@,
        r.argument == a.argument,
{
    TiNamedArgument { name: a.name.clone(), argument: a.argument }
}

/// Arguments bound to parameter names, at most one per name.
pub struct ArgumentList {
    items: Vec<TiNamedArgument>,
}

impl ArgumentList {
    /// The bindings, in the order they were first made.
    pub closed spec fn spec_args(&self) -> Bindings {
        args_of(self.items@)
    }

    /// Whether no two bindings share a name.
    pub closed spec fn wf(&self) -> bool {
        unique_names(args_of(self.items@))
    }

    pub fn new() -> (r: Self)
        ensures
            r.wf(),
            r.spec_args().len() == 0,
    {
        let items: Vec<TiNamedArgument> = Vec::new();
        proof {
            assert(args_of(items@) =~= Seq::<(Seq<char>, TiArgument)>::empty());
        }
        ArgumentList { items }
    }

    /// Binds `value` to the parameter `name`, in place of any value bound to
    /// it before. Fails with InvalidArgument, binding nothing, for a name
    /// holding the terminator.
    pub fn set(&mut self, name: &str, value: TiArgument) -> (r: TaichiResult<()>)
        requires
            old(self).wf(),
        ensures
            final(self).wf(),
            unique_names(final(self).spec_args()),
            r is Ok == !has_terminator(name@),
            r matches Err(e) ==> e.code == TiError::InvalidArgument,
            r is Ok ==> final(self).spec_args() == bind(old(self).spec_args(), name@, value),
            r is Err ==> final(self).spec_args() == old(self).spec_args(),
    {
        if contains_terminator(name) {
            return Err(TaichiError::InvalidArgument(name));
        }
        let ghost l = args_of(self.items@);
        let target = name.to_owned();
        let mut next: Vec<TiNamedArgument> = Vec::new();
        let mut found = false;
        let mut i: usize = 0;
        while i < self.items.len()
            invariant
                l == args_of(self.items@),
                target@ == name@,
                i <= self.items@.len(),
                args_of(next@) =~= args_of(self.items@.subrange(0, i as int)).map_values(
                    |e: (Seq<char>, TiArgument)|
                        if e.0 == name@ {
                            (name@, value)
                        } else {
                            e
                        },
                ),
                found == binds(args_of(self.items@.subrange(0, i as int)), name@),
            decreases self.items@.len() - i,
        {
            let ghost prefix = args_of(self.items@.subrange(0, i as int));
            let ghost extended = args_of(self.items@.subrange(0, i as int + 1));
            assert(extended =~= prefix.push(l[i as int]));
            let ghost before_next = next@;
            let entry = if self.items[i].name == target {
                found = true;
                TiNamedArgument { name: name.to_owned(), argument: value }
            } else {
                copy_named(&self.items[i])
            };
            next.push(entry);
            proof {
                assert(args_of(next@) =~= args_of(before_next).push(
                    (entry.name@, entry.argument),
                ));
                assert(prefix.push(l[i as int]).map_values(
                    |e: (Seq<char>, TiArgument)|
                        if e.0 == name@ {
                            (name@, value)
                        } else {
                            e
                        },
                ) =~= prefix.map_values(
                    |e: (Seq<char>, TiArgument)|
                        if e.0 == name@ {
                            (name@, value)
                        } else {
                            e
                        },
                ).push(if l[i as int].0 == name@ { (name@, value) } else { l[i as int] }));
                if binds(extended, name@) && !binds(prefix, name@) {
                    let k = choose|k: int| 0 <= k < extended.len() && #[trigger] extended[k].0
                        == name@;
                    assert(k == i);
                }
                if binds(prefix, name@) {
                    let k = choose|k: int| 0 <= k < prefix.len() && #[trigger] prefix[k].0
                        == name@;
                    assert(extended[k].0 == name@);
                }
                if l[i as int].0 == name@ {
                    assert(extended[i as int].0 == name@);
                }
            }
            i = i + 1;
        }
        assert(self.items@.subrange(0, self.items@.len() as int) =~= self.items@);
        if !found {
            let ghost before_next = next@;
            next.push(TiNamedArgument { name: name.to_owned(), argument: value });
            proof {
                assert(args_of(next@) =~= args_of(before_next).push((name@, value)));
                assert(l.map_values(
                    |e: (Seq<char>, TiArgument)|
                        if e.0 == name@ {
                            (name@, value)
                        } else {
                            e
                        },
                ) =~= l) by {
                    assert forall|k: int| 0 <= k < l.len() implies l[k].0 != name@ by {
                        if l[k].0 == name@ {
                            assert(binds(l, name@));
                        }
                    }
                }
            }
        }
        proof {
            lemma_bind(l, name@, value);
        }
        self.items = next;
        Ok(())
    }

    /// The bindings as records, one per name: what a launch hands over.
    pub fn snapshot(&self) -> (r: Vec<TiNamedArgument>)
        requires
            self.wf(),
        ensures
            args_of(r@) == self.spec_args(),
            unique_names(args_of(r@)),
    {
        let mut out: Vec<TiNamedArgument> = Vec::new();
        let mut i: usize = 0;
        while i < self.items.len()
            invariant
                i <= self.items@.len(),
                args_of(out@) =~= args_of(self.items@.subrange(0, i as int)),
            decreases self.items@.len() - i,
        {
            let ghost before_out = out@;
            let entry = copy_named(&self.items[i]);
            out.push(entry);
            proof {
                assert(args_of(out@) =~= args_of(before_out).push((entry.name@, entry.argument)));
                assert(args_of(self.items@.subrange(0, i as int + 1)) =~= args_of(
                    self.items@.subrange(0, i as int),
                ).push((self.items@[i as int].name@, self.items@[i as int].argument)));
            }
            i = i + 1;
        }
        assert(self.items@.subrange(0, self.items@.len() as int) =~= self.items@);
        out
    }
}

/// A compute graph of a module, with the arguments bound so far. It holds
/// its module.
pub struct ComputeGraph {
    module: AotModule,
    graph: TiComputeGraph,
    args: ArgumentList,
}

impl ComputeGraph {
    /// The handle that names this graph on the device.
    pub closed spec fn id(&self) -> usize {
        self.graph.0
    }

    /// The module this graph holds.
    pub closed spec fn spec_module(&self) -> AotModule {
        self.module
    }

    /// The arguments bound so far.
    pub closed spec fn spec_args(&self) -> Bindings {
        self.args.spec_args()
    }

    /// Whether no two bound arguments share a name.
    pub closed spec fn wf(&self) -> bool {
        self.args.wf()
    }

    /// What `new` does: a name holding the terminator is refused with
    /// InvalidArgument before the device is asked; a released module gives
    /// InvalidArgument and a name the module does not offer NameNotFound;
    /// OutOfMemory where no handle is free or the module's holder count is
    /// full. Otherwise the graph is retrieved with no argument bound and
    /// holds the module once more.
    pub open spec fn new_outcome(
        before: RuntimeState,
        module: AotModule,
        name: Seq<char>,
        after: RuntimeState,
        r: TaichiResult<ComputeGraph>,
    ) -> bool {
        let live = before.device.modules.contains_key(module.id());
        let offered = live && before.device.modules[module.id()].graphs.contains(name);
        &&& has_terminator(name) ==> (r matches Err(e) && e.code == TiError::InvalidArgument)
            && after == before
        &&& !has_terminator(name) ==> {
            &&& same_instance(before, after)
            &&& after.device.error == TiError::Success
            &&& !live ==> (r matches Err(e) && e.code == TiError::InvalidArgument)
            &&& live && !offered ==> (r matches Err(e) && e.code == TiError::NameNotFound)
            &&& offered && !(before.device.handle_free() && can_share(
                before.device.modules[module.id()].refs,
            )) ==> (r matches Err(e) && e.code == TiError::OutOfMemory)
            &&& offered && before.device.handle_free() && can_share(
                before.device.modules[module.id()].refs,
            ) ==> {
                &&& r matches Ok(g) && {
                    &&& g.wf()
                    &&& unique_names(g.spec_args())
                    &&& g.spec_args().len() == 0
                    &&& g.id() == before.device.next_handle
                    &&& g.spec_module().id() == module.id()
                    &&& g.spec_module().spec_runtime() == module.spec_runtime()
                }
                &&& after.device == (DeviceState {
                    graphs: before.device.graphs.insert(
                        before.device.next_handle as usize,
                        GraphState { module: module.id(), name },
                    ),
                    modules: before.device.modules.insert(
                        module.id(),
                        ModuleState {
                            refs: before.device.modules[module.id()].refs + 1,
                            ..before.device.modules[module.id()]
                        },
                    ),
                    next_handle: before.device.next_handle + 1,
                    ..before.device.with_success()
                })
            }
        }
    }

    /// Retrieves the graph named `name` from `aot_module`.
    pub fn new(aot_module: &AotModule, runtime: &mut Runtime, name: &str) -> (r: TaichiResult<
        ComputeGraph,
    >)
        requires
            old(runtime)@.wf(),
            aot_module.spec_runtime() == old(runtime)@.handle,
        ensures
            final(runtime)@.wf(),
            Self::new_outcome(old(runtime)@, *aot_module, name@, final(runtime)@, r),
    {
        if contains_terminator(name) {
            return Err(TaichiError::InvalidArgument(name));
        }
        let graph = runtime.device_mut().get_compute_graph(aot_module.aot_module(), name);
        match runtime.get_last_error() {
            Ok(()) => {},
            Err(e) => return Err(e),
        }
        let module = match aot_module.share(runtime) {
            Ok(m) => m,
            Err(e) => return Err(e),
        };
        Ok(ComputeGraph { module, graph, args: ArgumentList::new() })
    }

    /// Binds `value` to the parameter `name`, in place of any value bound to
    /// it before. Fails with InvalidArgument, binding nothing, for a name
    /// holding the terminator.
    pub fn set_arg(&mut self, name: &str, value: TiArgument) -> (r: TaichiResult<()>)
        requires
            old(self).wf(),
        ensures
            final(self).wf(),
            unique_names(final(self).spec_args()),
            final(self).id() == old(self).id(),
            final(self).spec_module() == old(self).spec_module(),
            r is Ok == !has_terminator(name@),
            r matches Err(e) ==> e.code == TiError::InvalidArgument,
            r is Ok ==> final(self).spec_args() == bind(old(self).spec_args(), name@, value),
            r is Err ==> final(self).spec_args() == old(self).spec_args(),
    {
        self.args.set(name, value)
    }

    pub fn set_arg_i32(&mut self, name: &str, value: i32) -> (r: TaichiResult<()>)
        requires
            old(self).wf(),
        ensures
            final(self).wf(),
            final(self).id() == old(self).id(),
            final(self).spec_module() == old(self).spec_module(),
            unique_names(final(self).spec_args()),
            r is Ok == !has_terminator(name@),
            r matches Err(e) ==> e.code == TiError::InvalidArgument,
            r is Ok ==> final(self).spec_args() == bind(old(self).spec_args(), name@, TiArgument::I32(value)),
            r is Err ==> final(self).spec_args() == old(self).spec_args(),
    {
        self.set_arg(name, TiArgument::I32(value))
    }

    /// Binds a 32-bit float, given by its IEEE-754 bit pattern.
    pub fn set_arg_f32_bits(&mut self, name: &str, bits: u32) -> (r: TaichiResult<()>)
        requires
            old(self).wf(),
        ensures
            final(self).wf(),
            final(self).id() == old(self).id(),
            final(self).spec_module() == old(self).spec_module(),
            unique_names(final(self).spec_args()),
            r is Ok == !has_terminator(name@),
            r matches Err(e) ==> e.code == TiError::InvalidArgument,
            r is Ok ==> final(self).spec_args() == bind(old(self).spec_args(), name@, TiArgument::F32(bits)),
            r is Err ==> final(self).spec_args() == old(self).spec_args(),
    {
        self.set_arg(name, TiArgument::F32(bits))
    }

    pub fn set_arg_ndarray<T: Element>(&mut self, name: &str, value: &NdArray<T>) -> (r: TaichiResult<()>)
        requires
            old(self).wf(),
        ensures
            final(self).wf(),
            final(self).id() == old(self).id(),
            final(self).spec_module() == old(self).spec_module(),
            unique_names(final(self).spec_args()),
            r is Ok == !has_terminator(name@),
            r matches Err(e) ==> e.code == TiError::InvalidArgument,
            r is Ok ==> final(self).spec_args() == bind(
                old(self).spec_args(),
                name@,
                TiArgument::Ndarray(value.spec_ndarray()),
            ),
            r is Err ==> final(self).spec_args() == old(self).spec_args(),
    {
        self.set_arg(name, TiArgument::Ndarray(*value.ndarray()))
    }

    pub fn set_arg_texture(&mut self, name: &str, value: &Texture) -> (r: TaichiResult<()>)
        requires
            old(self).wf(),
        ensures
            final(self).wf(),
            final(self).id() == old(self).id(),
            final(self).spec_module() == old(self).spec_module(),
            unique_names(final(self).spec_args()),
            r is Ok == !has_terminator(name@),
            r matches Err(e) ==> e.code == TiError::InvalidArgument,
            r is Ok ==> final(self).spec_args() == bind(
                old(self).spec_args(),
                name@,
                TiArgument::Texture(value.spec_texture()),
            ),
            r is Err ==> final(self).spec_args() == old(self).spec_args(),
    {
        self.set_arg(name, TiArgument::Texture(*value.texture()))
    }

    pub fn set_arg_scalar(&mut self, name: &str, value: TiScalar) -> (r: TaichiResult<()>)
        requires
            old(self).wf(),
        ensures
            final(self).wf(),
            final(self).id() == old(self).id(),
            final(self).spec_module() == old(self).spec_module(),
            unique_names(final(self).spec_args()),
            r is Ok == !has_terminator(name@),
            r matches Err(e) ==> e.code == TiError::InvalidArgument,
            r is Ok ==> final(self).spec_args() == bind(old(self).spec_args(), name@, TiArgument::Scalar(value)),
            r is Err ==> final(self).spec_args() == old(self).spec_args(),
    {
        self.set_arg(name, TiArgument::Scalar(value))
    }

    /// The arguments bound so far, one record per name.
    pub fn args(&self) -> (r: Vec<TiNamedArgument>)
        requires
            self.wf(),
        ensures
            args_of(r@) == self.spec_args(),
            unique_names(args_of(r@)),
    {
        self.args.snapshot()
    }

    /// Queues one launch of the graph with the arguments bound now. Fails
    /// with InvalidArgument where the graph or its module is gone.
    pub fn launch(&self, runtime: &mut Runtime) -> (r: TaichiResult<()>)
        requires
            self.wf(),
            old(runtime)@.wf(),
            self.spec_module().spec_runtime() == old(runtime)@.handle,
        ensures
            final(runtime)@.wf(),
            same_instance(old(runtime)@, final(runtime)@),
            final(runtime)@.device.error == TiError::Success,
            r is Ok == (old(runtime)@.device.graphs.contains_key(self.id())
                && old(runtime)@.device.modules.contains_key(
                old(runtime)@.device.graphs[self.id()].module,
            )),
            r is Ok ==> final(runtime)@.device == (DeviceState {
                pending: old(runtime)@.device.pending.push(
                    LaunchState { graph: self.id(), args: self.spec_args() },
                ),
                ..old(runtime)@.device.with_success()
            }),
            r matches Err(e) ==> e.code == TiError::InvalidArgument
                && final(runtime)@.device.same_resources(old(runtime)@.device),
    {
        let snapshot = self.args();
        runtime.device_mut().launch_compute_graph(self.graph, snapshot);
        runtime.get_last_error()
    }

    /// Lets go of the graph and of its hold on the module.
    pub fn release(self, runtime: &mut Runtime) -> (r: TaichiResult<bool>)
        requires
            old(runtime)@.wf(),
            self.spec_module().spec_runtime() == old(runtime)@.handle,
        ensures
            final(runtime)@.wf(),
            same_instance(old(runtime)@, final(runtime)@),
            final(runtime)@.device.error == TiError::Success,
            r is Ok == old(runtime)@.device.modules.contains_key(self.spec_module().id()),
            r matches Ok(freed) ==> freed == (old(runtime)@.device.modules[self.spec_module().id()].refs
                <= 1) && final(runtime)@.device == (DeviceState {
                modules: release_module_table(old(runtime)@.device.modules, self.spec_module().id()),
                ..old(runtime)@.device.with_success()
            }),
            r is Err ==> final(runtime)@.device.same_resources(old(runtime)@.device),
    {
        self.module.release(runtime)
    }

    /// The handle of the runtime this graph belongs to.
    pub fn runtime(&self) -> (r: TiRuntime)
        ensures
            r == self.spec_module().spec_runtime(),
    {
        self.module.runtime()
    }

    pub fn compute_graph(&self) -> (r: TiComputeGraph)
        ensures
            r.0 == self.id(),
    {
        self.graph
    }
}

} // verus!
