use pocs::workflow_graph::{join_hashmap, Execute, WorkflowGraph};
use std::collections::HashMap;
use serde_json::Value;

struct Step {
    name: String,
    input: Option<Value>,
    output: Value,
    fail: bool,
    runs: u64,
    last: Option<Result<(), String>>,
    run_input: Option<Value>,
    handed: u64,
}

impl Execute for Step {
    fn task_output(&self) -> Value {
        self.output.clone()
    }

    fn last_input(&self) -> Option<Value> {
        self.input.clone()
    }

    fn runs(&self) -> u64 {
        self.runs
    }

    fn last_result(&self) -> Option<Result<(), String>> {
        self.last.clone()
    }

    fn last_run_input(&self) -> Option<Value> {
        self.run_input.clone()
    }

    fn handovers(&self) -> u64 {
        self.handed
    }

    fn execute(&mut self) -> Result<(), String> {
        self.runs = self.runs.wrapping_add(1);
        self.run_input = self.input.clone();
        let result = if self.fail {
            Err(format!("{} failed", self.name))
        } else {
            self.output =
                Value::from(vec![Value::from(self.name.clone()), self.input.clone().unwrap_or(Value::Null)]);
            Ok(())
        };
        self.last = Some(result.clone());
        result
    }

    fn get_task_output(&self) -> Value {
        self.output.clone()
    }

    fn set_output_to_task(&mut self, input: Value) {
        self.input = Some(input);
        self.handed = self.handed.wrapping_add(1);
    }
}

fn step(name: &str) -> Box<dyn Execute> {
    Box::new(Step { name: name.to_string(), input: None, output: Value::Null, fail: false, runs: 0, last: None, run_input: None, handed: 0 })
}

#[test]
fn pipe_feeds_single_parent_output() {
    let mut graph = WorkflowGraph::new(2);
    let a = graph.add_node(step("a"));
    let b = graph.add_node(step("b"));
    graph.add_edge(a, b);
    graph.pipe(a).unwrap().pipe(b).unwrap();
    let out = graph.get_task(b).get_task_output();
    assert_eq!(out, Value::from(vec![Value::from("b"), Value::from(vec![Value::from("a"), Value::Null])]));
}

fn failing(name: &str) -> Box<dyn Execute> {
    Box::new(Step { name: name.to_string(), input: None, output: Value::Null, fail: true, runs: 0, last: None, run_input: None, handed: 0 })
}

#[test]
fn init_runs_the_first_task_without_input() {
    let mut graph = WorkflowGraph::new(1);
    graph.add_node(step("a"));
    assert!(graph.init().is_ok());
    assert_eq!(graph.get_task(0).get_task_output(), Value::from(vec![Value::from("a"), Value::Null]));
}

#[test]
fn init_reports_the_error_of_the_first_task() {
    let mut graph = WorkflowGraph::new(1);
    graph.add_node(failing("a"));
    assert_eq!(graph.init().err(), Some("a failed".to_string()));
}

#[test]
fn pipe_joins_the_outputs_of_several_parents_in_edge_order() {
    let mut graph = WorkflowGraph::new(3);
    let a = graph.add_node(step("a"));
    let b = graph.add_node(step("b"));
    let c = graph.add_node(step("c"));
    graph.add_edges(&[(b, c), (a, c)]);
    graph.pipe(a).unwrap().pipe(b).unwrap().pipe(c).unwrap();
    let a_out = Value::from(vec![Value::from("a"), Value::Null]);
    let b_out = Value::from(vec![Value::from("b"), Value::Null]);
    assert_eq!(
        graph.get_task(c).get_task_output(),
        Value::from(vec![Value::from("c"), Value::from(vec![b_out, a_out])])
    );
}

#[test]
fn pipe_reports_a_failing_task() {
    let mut graph = WorkflowGraph::new(2);
    let a = graph.add_node(step("a"));
    let b = graph.add_node(failing("b"));
    graph.add_edge(a, b);
    graph.pipe(a).unwrap();
    assert_eq!(graph.pipe(b).err(), Some("b failed".to_string()));
}

#[test]
fn term_runs_a_task_on_the_output_before_it() {
    let mut graph = WorkflowGraph::new(2);
    graph.add_node(step("a"));
    graph.add_node(step("b"));
    graph.init().unwrap();
    let out = graph.term(Some(1)).unwrap();
    assert_eq!(out, Value::from(vec![Value::from("b"), Value::from(vec![Value::from("a"), Value::Null])]));
    assert_eq!(graph.term(None).unwrap(), out);
}

#[test]
fn term_without_index_returns_the_last_output() {
    let mut graph = WorkflowGraph::new(2);
    graph.add_node(step("a"));
    graph.add_node(step("b"));
    assert_eq!(graph.term(None), Ok(Value::Null));
}

#[test]
fn nodes_are_counted_and_listed() {
    let mut graph = WorkflowGraph::new(4);
    assert_eq!(graph.node_count(), 0);
    graph.add_node(step("a"));
    graph.add_node(step("b"));
    graph.add_node(step("c"));
    assert_eq!(graph.node_count(), 3);
    assert_eq!(graph.node_indices(), vec![0, 1, 2]);
    graph.get_task_as_mut(1).set_output_to_task(Value::from(5));
    graph.get_task_as_mut(1).execute().unwrap();
    assert_eq!(graph.get_task(1).get_task_output(), Value::from(vec![Value::from("b"), Value::from(5)]));
}

#[test]
fn join_hashmap_keeps_common_keys() {
    let first: HashMap<u64, String> = [(1, "one".to_string()), (2, "two".to_string())].into_iter().collect();
    let second: HashMap<u64, i32> = [(2, 20), (3, 30)].into_iter().collect();
    let joined = join_hashmap(first, second);
    assert_eq!(joined.len(), 1);
    assert_eq!(joined.get(&2), Some(&("two".to_string(), 20)));
}

#[test]
fn pipe_runs_only_the_piped_task_once() {
    let mut graph = WorkflowGraph::new(3);
    graph.add_node(step("a"));
    graph.add_node(step("b"));
    graph.add_node(step("c"));
    graph.add_edges(&[(0, 2), (1, 2)]);
    assert!(graph.pipe(2).is_ok());
    assert_eq!(graph.get_task(2).runs(), 1);
    assert_eq!(graph.get_task(2).last_input(), Some(Value::from(vec![Value::Null, Value::Null])));
    assert_eq!(graph.get_task(2).last_result(), Some(Ok(())));
    assert_eq!(graph.get_task(2).last_run_input(), Some(Value::from(vec![Value::Null, Value::Null])));
    assert_eq!(graph.get_task(2).handovers(), 1);
    assert_eq!(graph.get_task(0).handovers(), 0);
    assert_eq!(graph.get_task(0).runs(), 0);
    assert_eq!(graph.get_task(1).runs(), 0);
    assert_eq!(graph.get_task(0).last_input(), None);
    assert_eq!(graph.get_task(1).last_input(), None);
}

#[test]
fn pipe_without_parents_hands_nothing_over() {
    let mut graph = WorkflowGraph::new(2);
    graph.add_node(step("a"));
    graph.add_node(failing("b"));
    assert_eq!(graph.pipe(1).err(), Some("b failed".to_string()));
    assert_eq!(graph.get_task(1).runs(), 1);
    assert_eq!(graph.get_task(1).last_input(), None);
    assert_eq!(graph.get_task(1).last_result(), Some(Err("b failed".to_string())));
    assert_eq!(graph.get_task(1).handovers(), 0);
    assert_eq!(graph.get_task(1).last_run_input(), None);
    assert_eq!(graph.get_task(0).runs(), 0);
}
