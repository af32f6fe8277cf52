//! A workflow as a graph of tasks: each task may receive the outputs of the
//! tasks that have an edge into it, and then runs.
use crate::json::{array_of, json_array};
use serde_json::Value;
use std::collections::HashMap;
use vstd::std_specs::hash::spec_hash_map_iter;
use vstd::std_specs::iter::IteratorSpec;
use vstd::prelude::*;

verus! {

/// A step of a workflow: something that can run, that holds an output, and
/// that can be handed the outputs of the steps before it.
pub trait Execute {
    /// The output that the task holds now.
    spec fn task_output(&self) -> Value;

    /// The value that the task was last handed, if it was handed one.
    spec fn last_input(&self) -> Option<Value>;

    /// How many times the task has run, counted modulo 2^64.
    spec fn runs(&self) -> u64;

    /// What the last run of the task reported, if it has run.
    spec fn last_result(&self) -> Option<Result<(), String>>;

    /// The value that the task had been handed when it last ran, if it had
    /// been handed one.
    spec fn last_run_input(&self) -> Option<Value>;

    /// How many times the task has been handed a value, counted modulo 2^64.
    spec fn handovers(&self) -> u64;

    /// Runs the task on what it was last handed; it counts as one more run,
    /// reports `result`, and keeps what it was handed.
    fn execute(&mut self) -> (result: Result<(), String>)
        ensures
            final(self).runs() == (old(self).runs() + 1) as u64,
            final(self).last_result() == Some(result),
            final(self).last_run_input() == old(self).last_input(),
            final(self).last_input() == old(self).last_input(),
            final(self).handovers() == old(self).handovers(),
    ;

    /// The output that the task holds now.
    fn get_task_output(&self) -> (output: Value)
        ensures
            output == self.task_output(),
    ;

    /// Hands the task the value that it works on next; it does not run.
    fn set_output_to_task(&mut self, input: Value)
        ensures
            final(self).last_input() == Some(input),
            final(self).handovers() == (old(self).handovers() + 1) as u64,
            final(self).runs() == old(self).runs(),
            final(self).last_result() == old(self).last_result(),
            final(self).last_run_input() == old(self).last_run_input(),
    ;
}

/// The sources of the edges that end in `task`, in the order the edges were added.
pub open spec fn parents_of(edges: Seq<(usize, usize)>, task: usize) -> Seq<usize>
    decreases edges.len(),
{
    if edges.len() == 0 {
        Seq::empty()
    } else {
        let rest = parents_of(edges.drop_last(), task);
        if edges.last().1 == task {
            rest.push(edges.last().0)
        } else {
            rest
        }
    }
}

/// The outputs that the tasks at `indices` hold, in that order.
pub open spec fn outputs_at(tasks: Seq<Box<dyn Execute>>, indices: Seq<usize>) -> Seq<Value> {
    indices.map_values(|i: usize| tasks[i as int].task_output())
}

/// What a task receives before it runs in a pipe: nothing when no edge ends in
/// it, the output of its one parent, or the array of the outputs of all its
/// parents in the order of their edges.
pub open spec fn pipe_input(
    tasks: Seq<Box<dyn Execute>>,
    edges: Seq<(usize, usize)>,
    task: usize,
) -> Option<Value> {
    let parents = parents_of(edges, task);
    if parents.len() == 0 {
        None
    } else if parents.len() == 1 {
        Some(tasks[parents[0] as int].task_output())
    } else {
        Some(json_array(outputs_at(tasks, parents)))
    }
}

/// The parents of a task are the sources of the edges that end in it, and
/// only those: each parent has an edge from it into the task, each edge into
/// the task gives a parent, and a task that no edge ends in has no parents,
/// so a pipe hands it nothing.
pub proof fn law_parents_are_sources_of_incoming_edges(edges: Seq<(usize, usize)>, task: usize)
    ensures
        forall|i: int|
            0 <= i < parents_of(edges, task).len() ==> exists|k: int|
                0 <= k < edges.len() && #[trigger] edges[k] == (#[trigger] parents_of(edges, task)[i], task),
        forall|k: int|
            0 <= k < edges.len() && #[trigger] edges[k].1 == task ==> parents_of(edges, task).contains(edges[k].0),
        (forall|k: int| 0 <= k < edges.len() ==> #[trigger] edges[k].1 != task) ==> parents_of(edges, task).len() == 0,
    decreases edges.len(),
{
    if edges.len() > 0 {
        let rest = edges.drop_last();
        law_parents_are_sources_of_incoming_edges(rest, task);
        let p = parents_of(rest, task);
        let last = edges.last();
        assert forall|i: int| 0 <= i < parents_of(edges, task).len() implies exists|k: int|
            0 <= k < edges.len() && #[trigger] edges[k] == (#[trigger] parents_of(edges, task)[i], task) by {
            if i < p.len() {
                assert(parents_of(edges, task)[i] == p[i]);
                let k = choose|k: int| 0 <= k < rest.len() && #[trigger] rest[k] == (p[i], task);
                assert(edges[k] == rest[k]);
            } else {
                assert(edges[edges.len() - 1] == (parents_of(edges, task)[i], task));
            }
        }
        assert forall|k: int| 0 <= k < edges.len() && #[trigger] edges[k].1 == task implies parents_of(
            edges,
            task,
        ).contains(edges[k].0) by {
            if k < rest.len() {
                assert(rest[k] == edges[k]);
                let j = choose|j: int| 0 <= j < p.len() && p[j] == edges[k].0;
                if last.1 == task {
                    assert(p.push(last.0)[j] == edges[k].0);
                }
            } else {
                assert(parents_of(edges, task) == p.push(last.0));
                assert(p.push(last.0)[p.len() as int] == edges[k].0);
            }
        }
        if forall|k: int| 0 <= k < edges.len() ==> #[trigger] edges[k].1 != task {
            assert forall|k: int| 0 <= k < rest.len() implies #[trigger] rest[k].1 != task by {
                assert(rest[k] == edges[k]);
            }
            assert(edges[edges.len() - 1].1 != task);
        }
    }
}

/// A graph of tasks and the edges between them.
pub struct WorkflowGraph {
    edges: Vec<(usize, usize)>,
    nodes: Vec<Box<dyn Execute>>,
}

impl WorkflowGraph {
    /// The edges, as (parent, child) pairs, in the order they were added.
    pub closed spec fn edge_list(&self) -> Seq<(usize, usize)> {
        self.edges@
    }

    /// The tasks, by index.
    pub closed spec fn tasks(&self) -> Seq<Box<dyn Execute>> {
        self.nodes@
    }

    /// `after` is this graph once `task` was handed `input` (if any), once,
    /// and then ran once on what it was handed, reporting `result`: same
    /// edges, and no other task touched.
    pub open spec fn ran_task(
        &self,
        after: &WorkflowGraph,
        task: usize,
        input: Option<Value>,
        result: Result<(), String>,
    ) -> bool {
        &&& after.edge_list() == self.edge_list()
        &&& after.tasks().len() == self.tasks().len()
        &&& forall|j: int|
            0 <= j < self.tasks().len() && j != task ==> #[trigger] after.tasks()[j] == self.tasks()[j]
        &&& after.tasks()[task as int].runs() == (self.tasks()[task as int].runs() + 1) as u64
        &&& after.tasks()[task as int].last_result() == Some(result)
        &&& after.tasks()[task as int].last_input() == match input {
            Some(value) => Some(value),
            None => self.tasks()[task as int].last_input(),
        }
        &&& after.tasks()[task as int].last_run_input() == after.tasks()[task as int].last_input()
        &&& after.tasks()[task as int].handovers() == match input {
            Some(_) => (self.tasks()[task as int].handovers() + 1) as u64,
            None => self.tasks()[task as int].handovers(),
        }
    }

    /// An empty graph with room for `size` tasks.
    pub fn new(size: usize) -> (graph: Self)
        ensures
            graph.tasks().len() == 0,
            graph.edge_list().len() == 0,
    {
        WorkflowGraph { nodes: Vec::with_capacity(size), edges: Vec::new() }
    }

    /// The number of tasks.
    pub fn node_count(&self) -> (count: usize)
        ensures
            count == self.tasks().len(),
    {
        self.nodes.len()
    }

    /// Adds a task and returns its index.
    pub fn add_node(&mut self, task: Box<dyn Execute>) -> (index: usize)
        ensures
            index == old(self).tasks().len(),
            final(self).tasks() == old(self).tasks().push(task),
            final(self).edge_list() == old(self).edge_list(),
    {
        let len = self.nodes.len();
        self.nodes.push(task);
        len
    }

    /// Adds an edge from `parent` to `child`.
    pub fn add_edge(&mut self, parent: usize, child: usize)
        ensures
            final(self).edge_list() == old(self).edge_list().push((parent, child)),
            final(self).tasks() == old(self).tasks(),
    {
        self.edges.push((parent, child));
    }

    /// Adds the given edges, in order.
    pub fn add_edges(&mut self, edges: &[(usize, usize)])
        ensures
            final(self).edge_list() == old(self).edge_list() + edges@,
            final(self).tasks() == old(self).tasks(),
    {
        let mut i: usize = 0;
        while i < edges.len()
            invariant
                i <= edges@.len(),
                self.edge_list() == old(self).edge_list() + edges@.subrange(0, i as int),
                self.tasks() == old(self).tasks(),
            decreases edges@.len() - i,
        {
            let (source, destination) = edges[i];
            self.add_edge(source, destination);
            assert(edges@.subrange(0, i + 1) == edges@.subrange(0, i as int).push(edges@[i as int]));
            i += 1;
        }
        assert(edges@.subrange(0, edges@.len() as int) == edges@);
    }

    /// The task at `index`.
    pub fn get_task(&self, index: usize) -> (task: &Box<dyn Execute>)
        requires
            index < self.tasks().len(),
        ensures
            *task == self.tasks()[index as int],
    {
        &self.nodes[index]
    }

    /// The task at `index`, to change it in place.
    pub fn get_task_as_mut(&mut self, index: usize) -> (task: &mut Box<dyn Execute>)
        requires
            index < old(self).tasks().len(),
        ensures
            *task == old(self).tasks()[index as int],
            final(self).tasks().len() == old(self).tasks().len(),
            final(self).tasks()[index as int] == *final(task),
            forall|j: int|
                0 <= j < old(self).tasks().len() && j != index ==> #[trigger] final(self).tasks()[j]
                    == old(self).tasks()[j],
            final(self).edge_list() == old(self).edge_list(),
    {
        &mut self.nodes[index]
    }

    /// The indices of all tasks, in increasing order.
    pub fn node_indices(&self) -> (indices: Vec<usize>)
        ensures
            indices@.len() == self.tasks().len(),
            forall|i: int| 0 <= i < indices@.len() ==> #[trigger] indices@[i] == i,
    {
        let count = self.node_count();
        let mut indices: Vec<usize> = Vec::new();
        let mut i: usize = 0;
        while i < count
            invariant
                count == self.tasks().len(),
                i <= count,
                indices@.len() == i,
                forall|j: int| 0 <= j < indices@.len() ==> #[trigger] indices@[j] == j,
            decreases count - i,
        {
            indices.push(i);
            i += 1;
        }
        indices
    }

    /// Hands `input` (if any) to the task at `task`, then runs it.
    fn run_task(&mut self, task: usize, input: Option<Value>) -> (result: Result<(), String>)
        requires
            task < old(self).tasks().len(),
        ensures
            old(self).ran_task(&*final(self), task, input, result),
    {
        match input {
            Some(value) => {
                self.nodes[task].set_output_to_task(value);
            },
            None => {},
        }
        self.nodes[task].execute()
    }

    /// Runs the first task.
    pub fn init(&mut self) -> (result: Result<&mut Self, String>)
        requires
            old(self).tasks().len() >= 1,
        ensures
            match result {
                Ok(graph) => old(self).ran_task(&*graph, 0, None, Ok(())) && *final(self) == *final(graph),
                Err(e) => old(self).ran_task(&*final(self), 0, None, Err(e)),
            },
    {
        match self.run_task(0, None) {
            Ok(unit) => {
                assert(unit == ());
                Ok(self)
            },
            Err(err) => Err(err),
        }
    }

    /// Hands the task at `task_index` the output of the task before it and runs
    /// it, returning the output it then holds; with no index, returns the output
    /// of the last task and changes nothing.
    pub fn term(&mut self, task_index: Option<usize>) -> (result: Result<Value, String>)
        requires
            match task_index {
                Some(index) => 1 <= index < old(self).tasks().len(),
                None => old(self).tasks().len() >= 1,
            },
        ensures
            match task_index {
                Some(index) => {
                    let input = Some(old(self).tasks()[index - 1].task_output());
                    match result {
                        Ok(output) => old(self).ran_task(&*final(self), index, input, Ok(()))
                            && output == final(self).tasks()[index as int].task_output(),
                        Err(e) => old(self).ran_task(&*final(self), index, input, Err(e)),
                    }
                },
                None => {
                    &&& *final(self) == *old(self)
                    &&& result == Ok::<Value, String>(old(self).tasks().last().task_output())
                },
            },
    {
        match task_index {
            Some(index) => {
                let previous_index = index - 1;
                let previous_task_output = self.nodes[previous_index].get_task_output();
                match self.run_task(index, Some(previous_task_output)) {
                    Ok(unit) => {
                        assert(unit == ());
                        Ok(self.nodes[index].get_task_output())
                    },
                    Err(err) => Err(err),
                }
            },
            None => {
                let len = self.node_count();
                Ok(self.nodes[len - 1].get_task_output())
            },
        }
    }

    /// The indices of the parents of `task_index`, in the order of their edges.
    fn parents(&self, task_index: usize) -> (list: Vec<usize>)
        ensures
            list@ == parents_of(self.edge_list(), task_index),
    {
        let mut list: Vec<usize> = Vec::new();
        let mut i: usize = 0;
        while i < self.edges.len()
            invariant
                i <= self.edges@.len(),
                list@ == parents_of(self.edges@.subrange(0, i as int), task_index),
            decreases self.edges@.len() - i,
        {
            let (source, destination) = self.edges[i];
            assert(self.edges@.subrange(0, i + 1).drop_last() == self.edges@.subrange(0, i as int));
            if destination == task_index {
                list.push(source);
            }
            i += 1;
        }
        assert(self.edges@.subrange(0, self.edges@.len() as int) == self.edges@);
        list
    }

    /// Runs the task at `task_index` after handing it what its parents hold:
    /// nothing when it has none, the output of its one parent, or the array
    /// of the outputs of all its parents in the order of their edges.
    pub fn pipe(&mut self, task_index: usize) -> (result: Result<&mut Self, String>)
        requires
            task_index < old(self).tasks().len(),
            forall|k: int|
                0 <= k < parents_of(old(self).edge_list(), task_index).len()
                    ==> #[trigger] parents_of(old(self).edge_list(), task_index)[k] < old(self).tasks().len(),
        ensures
            match result {
                Ok(graph) => old(self).ran_task(
                    &*graph,
                    task_index,
                    pipe_input(old(self).tasks(), old(self).edge_list(), task_index),
                    Ok(()),
                ) && *final(self) == *final(graph),
                Err(e) => old(self).ran_task(
                    &*final(self),
                    task_index,
                    pipe_input(old(self).tasks(), old(self).edge_list(), task_index),
                    Err(e),
                ),
            },
    {
        let list = self.parents(task_index);
        let input = if list.len() == 0 {
            None
        } else if list.len() == 1 {
            Some(self.nodes[list[0]].get_task_output())
        } else {
            let mut outputs: Vec<Value> = Vec::new();
            let mut j: usize = 0;
            while j < list.len()
                invariant
                    j <= list@.len(),
                    list@ == parents_of(self.edge_list(), task_index),
                    forall|k: int| 0 <= k < list@.len() ==> #[trigger] list@[k] < self.tasks().len(),
                    outputs@ == outputs_at(self.tasks(), list@.subrange(0, j as int)),
                decreases list@.len() - j,
            {
                let output = self.nodes[list[j]].get_task_output();
                outputs.push(output);
                assert(outputs_at(self.tasks(), list@.subrange(0, j + 1)) =~= outputs_at(
                    self.tasks(),
                    list@.subrange(0, j as int),
                ).push(output));
                j += 1;
            }
            assert(list@.subrange(0, list@.len() as int) == list@);
            Some(array_of(outputs))
        };
        match self.run_task(task_index, input) {
            Ok(unit) => {
                assert(unit == ());
                Ok(self)
            },
            Err(err) => Err(err),
        }
    }
}

/// The keys found in both maps, each with its value from `first` and a clone
/// of its value from `second`.
pub fn join_hashmap<U: Clone, V: Clone>(first: HashMap<u64, U>, second: HashMap<u64, V>) -> (joined: HashMap<
    u64,
    (U, V),
>)
    ensures
        is_join(first@, second@, joined@),
{
    broadcast use vstd::std_specs::hash::group_hash_axioms;

    let mut data: HashMap<u64, (U, V)> = HashMap::new();
    let ghost all = spec_hash_map_iter(&first).remaining();
    let ghost mut done: int = 0;
    for (key, value) in it: first.iter()
        invariant
            it.seq() == all,
            done == it.index(),
            forall|k: u64|
                #[trigger] data@.contains_key(k) ==> {
                    &&& first@.contains_key(k)
                    &&& second@.contains_key(k)
                    &&& cloned(first@[k], data@[k].0)
                    &&& cloned(second@[k], data@[k].1)
                },
            forall|j: int|
                0 <= j < it.index() && second@.contains_key(*#[trigger] it.seq()[j].0) ==> data@.contains_key(
                    *it.seq()[j].0,
                ),
    {
        match second.get(key) {
            Some(s_value) => {
                let key_copy = *key;
                let value_copy = value.clone();
                let s_value_copy = s_value.clone();
                data.insert(key_copy, (value_copy, s_value_copy));
            },
            None => {},
        }
        proof {
            done = done + 1;
        }
    }
    proof {
        assert forall|k: u64| first@.contains_key(k) && second@.contains_key(k) implies data@.contains_key(k) by {
            let v = spec_hash_map_iter(&first).remaining();
            assert(v.contains((&k, &first@[k])));
            let j = choose|j: int| 0 <= j < v.len() && v[j] == (&k, &first@[k]);
            assert(*all[j].0 == k);
        }
        assert(data@.dom() =~= first@.dom().intersect(second@.dom()));
    }
    data
}

/// `joined` holds the keys found in both maps, each with a clone of its value
/// in `first` and a clone of its value in `second`.
pub open spec fn is_join<U: Clone, V: Clone>(first: Map<u64, U>, second: Map<u64, V>, joined: Map<u64, (U, V)>) -> bool {
    &&& joined.dom() == first.dom().intersect(second.dom())
    &&& forall|k: u64|
        #[trigger] joined.contains_key(k) ==> cloned(first[k], joined[k].0) && cloned(second[k], joined[k].1)
}

/// Tasks added one after another with `add_node` to a new graph, with any
/// edges added in between, are numbered from zero in the order they were
/// added: `graphs[j]` is the graph before the j-th `add_node`, whose result
/// is its number of tasks, `j`; a task keeps its number as later ones are
/// added.
pub proof fn law_added_tasks_are_numbered_in_order(graphs: Seq<WorkflowGraph>, added: Seq<Box<dyn Execute>>)
    requires
        graphs.len() == added.len() + 1,
        graphs[0].tasks().len() == 0,
        forall|j: int| 0 <= j < added.len() ==> #[trigger] graphs[j + 1].tasks() == graphs[j].tasks().push(added[j]),
    ensures
        forall|j: int| 0 <= j <= added.len() ==> #[trigger] graphs[j].tasks().len() == j,
        forall|j: int, k: int|
            0 <= j < k <= added.len() ==> #[trigger] graphs[k].tasks()[j] == #[trigger] graphs[j + 1].tasks()[j],
    decreases added.len(),
{
    if added.len() > 0 {
        let n = added.len() - 1;
        let first = graphs.take(n + 1);
        let before = added.take(n);
        assert forall|j: int| 0 <= j < before.len() implies #[trigger] first[j + 1].tasks() == first[j].tasks().push(before[j]) by {
            assert(first[j + 1] == graphs[j + 1]);
            assert(first[j] == graphs[j]);
            assert(before[j] == added[j]);
            assert(graphs[j + 1].tasks() == graphs[j].tasks().push(added[j]));
        }
        assert(first[0] == graphs[0]);
        law_added_tasks_are_numbered_in_order(first, before);
        assert(first[n] == graphs[n]);
        assert(graphs[n + 1].tasks() == graphs[n].tasks().push(added[n]));
        vstd::seq::axiom_seq_push_len(graphs[n].tasks(), added[n]);
        assert forall|j: int| 0 <= j <= added.len() implies #[trigger] graphs[j].tasks().len() == j by {
            if j <= n {
                assert(first[j] == graphs[j]);
            }
        }
        assert forall|j: int, k: int| 0 <= j < k <= added.len() implies #[trigger] graphs[k].tasks()[j]
            == #[trigger] graphs[j + 1].tasks()[j] by {
            if j < n {
                assert(first[j + 1] == graphs[j + 1]);
            }
            if k <= n {
                assert(first[k] == graphs[k]);
                assert(first[k].tasks()[j] == first[j + 1].tasks()[j]);
            } else if j < n {
                vstd::seq::axiom_seq_push_index_different(graphs[n].tasks(), added[n], j);
                assert(first[n].tasks()[j] == first[j + 1].tasks()[j]);
            }
        }
    }
}

/// Adding edges one at a time with `add_edge` gives the graph that adding
/// them at once with `add_edges` gives: `graphs[k + 1]` is `graphs[k]` after
/// `add_edge` of `edges[k]`; the last graph has the tasks of the first and
/// its edges followed by `edges`, the edges `add_edges(edges)` leaves.
pub proof fn law_edges_added_one_at_a_time(graphs: Seq<WorkflowGraph>, edges: Seq<(usize, usize)>)
    requires
        graphs.len() == edges.len() + 1,
        forall|k: int|
            0 <= k < edges.len() ==> {
                &&& #[trigger] graphs[k + 1].edge_list() == graphs[k].edge_list().push(edges[k])
                &&& graphs[k + 1].tasks() == graphs[k].tasks()
            },
    ensures
        graphs[edges.len() as int].edge_list() == graphs[0].edge_list() + edges,
        graphs[edges.len() as int].tasks() == graphs[0].tasks(),
    decreases edges.len(),
{
    if edges.len() > 0 {
        let n = edges.len() - 1;
        law_edges_added_one_at_a_time(graphs.take(n + 1), edges.take(n));
        assert(graphs.take(n + 1)[n] == graphs[n]);
        assert(graphs.take(n + 1)[0] == graphs[0]);
        assert(graphs[n + 1].edge_list() == graphs[n].edge_list().push(edges[n]));
        assert(graphs[edges.len() as int].edge_list() =~= graphs[0].edge_list() + edges);
    }
}

/// Joining two maps the other way round keys the same entries, each with the
/// clones of the same two values, swapped.
pub proof fn law_join_swapped<U: Clone, V: Clone>(
    first: Map<u64, U>,
    second: Map<u64, V>,
    joined: Map<u64, (U, V)>,
    swapped: Map<u64, (V, U)>,
)
    requires
        is_join(first, second, joined),
        is_join(second, first, swapped),
    ensures
        swapped.dom() == joined.dom(),
        forall|k: u64|
            #[trigger] joined.contains_key(k) ==> {
                &&& cloned(first[k], joined[k].0) && cloned(first[k], swapped[k].1)
                &&& cloned(second[k], joined[k].1) && cloned(second[k], swapped[k].0)
            },
{
    assert(swapped.dom() =~= joined.dom());
}

} // verus!
