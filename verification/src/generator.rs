//! Generates Rust source for the tasks of a workflow configuration, and
//! works out which tasks each task depends on.
use crate::codegen_model::{
    lemma_scope_text_no_carriage_return, lemma_struct_text_no_carriage_return, no_carriage_return, scope_raw,
    field_new, field_vis, fields_single_line, scope_items, scope_new, scope_new_impl, scope_push_struct,
    scope_text, scope_to_string, single_line, struct_field, struct_fields, struct_name, struct_new,
    struct_push_field, struct_text, struct_vis, struct_visibility, FieldSpec,
};
use convert_case::{Case, Casing};
use std::collections::HashMap;
use vstd::prelude::*;

verus! {

/// The name converted to PascalCase by `convert_case`.
pub uninterp spec fn pascal_case(name: Seq<char>) -> Seq<char>;

/// Wraps `Casing::to_case` with `Case::Pascal`.
#[verifier::external_body]
fn to_pascal_case(s: &str) -> (converted: String)
    ensures
        converted@ == pascal_case(s@),
{
    s.to_case(Case::Pascal)
}

/// The name converted to PascalCase.
pub fn convert_to_pascal(s: &str) -> (converted: String)
    ensures
        converted@ == pascal_case(s@),
{
    to_pascal_case(s)
}

/// A task that another task depends on, and which of its fields it uses.
#[derive(Clone, Debug, PartialEq, Eq)]
pub struct DependentTask {
    pub name: String,
    pub fields: Vec<String>,
}

/// The tasks a task depends on, and how their outputs are combined.
#[derive(Clone, Debug, PartialEq, Eq)]
pub struct DependsOn {
    pub operation: Option<String>,
    pub task: Vec<DependentTask>,
}

/// How a task takes part in the flow of the workflow.
#[derive(Clone, Debug, PartialEq, Eq)]
pub struct Flow {
    pub flow_type: String,
    pub task_name: String,
    pub depends_on: Option<DependsOn>,
}

/// An input argument of a task: its name and its Rust type.
#[derive(Clone, Debug)]
pub struct Args {
    pub name: String,
    pub arg_type: String,
}

/// A task of a workflow.
#[derive(Clone, Debug)]
pub struct Task {
    pub kind: String,
    pub name: String,
    pub input_args: Vec<Args>,
    pub properties: HashMap<String, String>,
    pub flow: Flow,
}

/// The name and version of a workflow.
#[derive(Clone, Debug)]
pub struct Workflow {
    pub name: String,
    pub version: String,
}

/// A workflow with its tasks.
#[derive(Clone, Debug)]
pub struct Workflows {
    pub name: String,
    pub version: String,
    pub tasks: Vec<Task>,
}

/// A configuration file: one workflow.
#[derive(Clone, Debug)]
pub struct Configs {
    pub workflow: Workflows,
}

/// An older configuration layout: tasks, flows and a workflow header side by side.
#[derive(Clone, Debug)]
pub struct Config {
    pub tasks: Vec<Task>,
    pub flows: Vec<Flow>,
    pub workflow: Workflow,
}

/// The fields of the input struct of a task: one per argument, without visibility.
pub open spec fn input_fields(args: Seq<Args>) -> Seq<FieldSpec> {
    args.map_values(|a: Args| (a.name@, a.arg_type@, None::<Seq<char>>))
}

/// The code generated for a task named `name` with arguments `args`: a
/// public struct `<Name>Input` with one field per argument, and a public
/// struct `<Name>` with the action name, the input and the output.
pub open spec fn task_code(name: Seq<char>, args: Seq<Args>) -> Seq<char> {
    let task_name = pascal_case(name);
    let input_name = task_name + seq!['I', 'n', 'p', 'u', 't'];
    let pub_vis = Some(seq!['p', 'u', 'b']);
    scope_text(
        seq![
            struct_text(input_name, pub_vis, input_fields(args)),
            struct_text(
                task_name,
                pub_vis,
                seq![
                    ("action_name"@, "String"@, None::<Seq<char>>),
                    ("input_args"@, input_name, pub_vis),
                    ("output"@, "Value"@, pub_vis),
                ],
            ),
        ],
    )
}

/// Whether the name and the arguments of a task render on single lines.
pub open spec fn task_single_line(name: Seq<char>, args: Seq<Args>) -> bool {
    &&& single_line(pascal_case(name))
    &&& fields_single_line(input_fields(args))
}

/// Generated task code breaks lines only with line feeds.
pub proof fn lemma_task_code_no_carriage_return(name: Seq<char>, args: Seq<Args>)
    requires
        task_single_line(name, args),
    ensures
        no_carriage_return(task_code(name, args)),
{
    let task_name = pascal_case(name);
    let input_name = task_name + seq!['I', 'n', 'p', 'u', 't'];
    let pub_vis = Some(seq!['p', 'u', 'b']);
    reveal_strlit("action_name");
    reveal_strlit("String");
    reveal_strlit("input_args");
    reveal_strlit("output");
    reveal_strlit("Value");
    assert(single_line(input_name));
    let main_fields = seq![
        ("action_name"@, "String"@, None::<Seq<char>>),
        ("input_args"@, input_name, pub_vis),
        ("output"@, "Value"@, pub_vis),
    ];
    assert(fields_single_line(main_fields));
    lemma_struct_text_no_carriage_return(input_name, pub_vis, input_fields(args));
    lemma_struct_text_no_carriage_return(task_name, pub_vis, main_fields);
    let items = seq![struct_text(input_name, pub_vis, input_fields(args)), struct_text(task_name, pub_vis, main_fields)];
    assert(forall|i: int| 0 <= i < items.len() ==> no_carriage_return(#[trigger] items[i]));
    lemma_scope_text_no_carriage_return(items);
}

/// Whether `text` may be the code that `Task::generate_task` gives for
/// `task`: exactly `task_code` when the task renders on single lines.
pub open spec fn generated_for(task: Task, text: Seq<char>) -> bool {
    task_single_line(task.name@, task.input_args@) ==> text == task_code(task.name@, task.input_args@)
}

/// The texts joined as items of one scope, each followed by a line break.
pub open spec fn joined_code(texts: Seq<Seq<char>>) -> Seq<char> {
    scope_text(texts.map_values(|t: Seq<char>| t + seq!['\n']))
}

/// `code` joins `texts`, one text that `generate_task` may give for each of
/// `tasks`, in order, when none of them holds a carriage return.
pub open spec fn joins_generated(tasks: Seq<Task>, texts: Seq<Seq<char>>, code: Seq<char>) -> bool {
    &&& texts.len() == tasks.len()
    &&& forall|i: int| 0 <= i < texts.len() ==> #[trigger] generated_for(tasks[i], texts[i])
    &&& (forall|i: int| 0 <= i < texts.len() ==> no_carriage_return(#[trigger] texts[i])) ==> code == joined_code(texts)
}

/// The input struct of a task has exactly one field per input argument, in
/// the order of the arguments: the argument's name and type, without
/// visibility.
pub proof fn law_one_input_field_per_argument(args: Seq<Args>)
    ensures
        input_fields(args).len() == args.len(),
        forall|i: int|
            0 <= i < args.len() ==> #[trigger] input_fields(args)[i] == (args[i].name@, args[i].arg_type@, None::<
                Seq<char>,
            >),
{
}

/// The code of a task is its input struct, public, named after the task
/// with `Input` appended and holding one field per argument, followed by its
/// main struct.
pub proof fn law_task_code_starts_with_the_input_struct(name: Seq<char>, args: Seq<Args>)
    ensures
        exists|fields: Seq<FieldSpec>, main: Seq<char>|
            {
                &&& fields.len() == args.len()
                &&& forall|i: int|
                    0 <= i < args.len() ==> #[trigger] fields[i] == (args[i].name@, args[i].arg_type@, None::<
                        Seq<char>,
                    >)
                &&& task_code(name, args) == scope_text(
                    seq![struct_text(pascal_case(name) + "Input"@, Some("pub"@), fields), main],
                )
            },
{
    reveal_strlit("Input");
    reveal_strlit("pub");
    let fields = input_fields(args);
    let task_name = pascal_case(name);
    let pub_vis = Some(seq!['p', 'u', 'b']);
    let main = struct_text(
        task_name,
        pub_vis,
        seq![
            ("action_name"@, "String"@, None::<Seq<char>>),
            ("input_args"@, task_name + seq!['I', 'n', 'p', 'u', 't'], pub_vis),
            ("output"@, "Value"@, pub_vis),
        ],
    );
    assert("Input"@ =~= seq!['I', 'n', 'p', 'u', 't']);
    assert("pub"@ =~= seq!['p', 'u', 'b']);
    assert(task_code(name, args) == scope_text(
        seq![struct_text(pascal_case(name) + "Input"@, Some("pub"@), fields), main],
    ));
}

/// The code generated for all `tasks`: the code of each task, in order, as
/// items of one scope.
pub open spec fn workflow_code(tasks: Seq<Task>) -> Seq<char> {
    scope_text(tasks.map_values(|t: Task| task_code(t.name@, t.input_args@) + seq!['\n']))
}

/// A dependent task as the contracts see it: its name and the names of the fields it uses.
pub type DependentTaskView = (Seq<char>, Seq<Seq<char>>);

/// What a task's flow says about its dependencies: the flow type, and the
/// tasks it depends on, if it depends on any.
pub type DependencyView = (Seq<char>, Option<Seq<DependentTaskView>>);

impl View for DependentTask {
    type V = DependentTaskView;

    open spec fn view(&self) -> DependentTaskView {
        (self.name@, self.fields@.map_values(|f: String| f@))
    }
}

/// The dependencies of a task.
pub open spec fn task_dependency(task: Task) -> DependencyView {
    (
        task.flow.flow_type@,
        match task.flow.depends_on {
            Some(d) => Some(d.task@.map_values(|t: DependentTask| t@)),
            None => None,
        },
    )
}

/// The dependencies of each task, by task name; a later task of the same name
/// replaces an earlier one.
pub open spec fn dependency_map(tasks: Seq<Task>) -> Map<Seq<char>, DependencyView>
    decreases tasks.len(),
{
    if tasks.len() == 0 {
        Map::empty()
    } else {
        dependency_map(tasks.drop_last()).insert(tasks.last().name@, task_dependency(tasks.last()))
    }
}

/// An entry of the dependency list as the contracts see it.
pub open spec fn dependency_entry_view(entry: (String, (String, Option<Vec<DependentTask>>))) -> (Seq<char>, DependencyView) {
    (
        entry.0@,
        (
            entry.1.0@,
            match entry.1.1 {
                Some(ts) => Some(ts@.map_values(|t: DependentTask| t@)),
                None => None,
            },
        ),
    )
}

/// `entries` names each key once and holds exactly the pairs of `map`.
pub open spec fn lists_map(entries: Seq<(String, (String, Option<Vec<DependentTask>>))>, map: Map<Seq<char>, DependencyView>) -> bool {
    &&& forall|i: int, j: int| 0 <= i < j < entries.len() ==> entries[i].0@ != entries[j].0@
    &&& forall|i: int| 0 <= i < entries.len() ==> {
        let (k, v) = #[trigger] dependency_entry_view(entries[i]);
        map.contains_key(k) && map[k] == v
    }
    &&& forall|k: Seq<char>| #[trigger] map.contains_key(k) ==> exists|i: int| 0 <= i < entries.len() && #[trigger] entries[i].0@ == k
}

impl Task {
    /// The code of the task: its input struct and its main struct.
    pub fn generate_task(&self) -> (code: String)
        ensures
            generated_for(*self, code@),
    {
        let mut scope = scope_new();
        let task_name = convert_to_pascal(self.name.as_str());
        let mut input_struct = self.generate_struct(task_name.as_str());
        struct_vis(&mut input_struct, "pub");
        scope_push_struct(&mut scope, input_struct);

        let mut main_struct = struct_new(task_name.as_str());
        struct_field(&mut main_struct, "action_name", "String");
        let input_type = task_name.clone().concat("Input");
        let mut input_field = field_new("input_args", input_type.as_str());
        field_vis(&mut input_field, "pub");
        let mut output_field = field_new("output", "Value");
        field_vis(&mut output_field, "pub");
        struct_push_field(&mut main_struct, input_field);
        struct_push_field(&mut main_struct, output_field);
        struct_vis(&mut main_struct, "pub");
        let ghost main_item = main_struct;
        scope_push_struct(&mut scope, main_struct);
        proof {
            reveal_strlit("pub");
            reveal_strlit("Input");
            reveal_strlit("action_name");
            reveal_strlit("String");
            reveal_strlit("input_args");
            reveal_strlit("output");
            reveal_strlit("Value");
            if task_single_line(self.name@, self.input_args@) {
                assert(struct_fields(main_item) =~= seq![
                    ("action_name"@, "String"@, None::<Seq<char>>),
                    ("input_args"@, task_name@ + "Input"@, Some("pub"@)),
                    ("output"@, "Value"@, Some("pub"@)),
                ]);
                assert(single_line(task_name@ + "Input"@));
                assert(single_line("pub"@));
                assert(fields_single_line(struct_fields(main_item)));
                assert(scope_items(scope) =~= seq![
                    struct_text(task_name@ + "Input"@, Some("pub"@), input_fields(self.input_args@)),
                    struct_text(task_name@, Some("pub"@), struct_fields(main_item)),
                ]);
                assert("pub"@ =~= seq!['p', 'u', 'b']);
                assert("Input"@ =~= seq!['I', 'n', 'p', 'u', 't']);
            }
        }
        scope_to_string(&scope)
    }

    /// A struct `<name>Input` with one field per input argument.
    fn generate_struct(&self, name: &str) -> (item: codegen::Struct)
        ensures
            struct_name(item) == name@ + "Input"@,
            struct_visibility(item) is None,
            struct_fields(item) == input_fields(self.input_args@),
    {
        let input_name = name.to_string().concat("Input");
        let mut input_struct = struct_new(input_name.as_str());
        let mut i: usize = 0;
        while i < self.input_args.len()
            invariant
                i <= self.input_args@.len(),
                struct_name(input_struct) == name@ + "Input"@,
                struct_visibility(input_struct) is None,
                struct_fields(input_struct) == input_fields(self.input_args@.subrange(0, i as int)),
            decreases self.input_args@.len() - i,
        {
            let args = &self.input_args[i];
            let field = field_new(args.name.as_str(), args.arg_type.as_str());
            struct_push_field(&mut input_struct, field);
            assert(input_fields(self.input_args@.subrange(0, i + 1)) =~= input_fields(
                self.input_args@.subrange(0, i as int),
            ).push((args.name@, args.arg_type@, None::<Seq<char>>)));
            i += 1;
        }
        assert(self.input_args@.subrange(0, self.input_args@.len() as int) =~= self.input_args@);
        input_struct
    }

    /// The implementation block of the task; it is left empty for now.
    pub fn generate_impl_for_task(&self) -> (code: String)
        ensures
            code@ == Seq::<char>::empty(),
    {
        let task_name = convert_to_pascal(self.name.as_str());
        let mut scope = scope_new();
        scope_new_impl(&mut scope, task_name.as_str());
        String::new()
    }
}

impl DependentTask {
    /// A copy of this dependent task.
    pub fn copy(&self) -> (copy: DependentTask)
        ensures
            copy@ == self@,
    {
        let mut fields: Vec<String> = Vec::new();
        let mut i: usize = 0;
        while i < self.fields.len()
            invariant
                i <= self.fields@.len(),
                fields@.len() == i,
                forall|k: int| 0 <= k < i ==> #[trigger] fields@[k]@ == self.fields@[k]@,
            decreases self.fields@.len() - i,
        {
            fields.push(self.fields[i].clone());
            i += 1;
        }
        let copy = DependentTask { name: self.name.clone(), fields };
        assert(copy@.1 =~= self@.1);
        copy
    }
}

/// A copy of a list of dependent tasks.
fn copy_dependent_tasks(tasks: &Vec<DependentTask>) -> (copy: Vec<DependentTask>)
    ensures
        copy@.map_values(|t: DependentTask| t@) == tasks@.map_values(|t: DependentTask| t@),
{
    let mut copy: Vec<DependentTask> = Vec::new();
    let mut i: usize = 0;
    while i < tasks.len()
        invariant
            i <= tasks@.len(),
            copy@.len() == i,
            forall|k: int| 0 <= k < i ==> #[trigger] copy@[k]@ == tasks@[k]@,
        decreases tasks@.len() - i,
    {
        copy.push(tasks[i].copy());
        i += 1;
    }
    assert(copy@.map_values(|t: DependentTask| t@) =~= tasks@.map_values(|t: DependentTask| t@));
    copy
}

/// The position of the entry named `name`, if there is one.
fn position_of(entries: &Vec<(String, (String, Option<Vec<DependentTask>>))>, name: &String) -> (position: Option<usize>)
    ensures
        match position {
            Some(p) => p < entries@.len() && entries@[p as int].0@ == name@,
            None => forall|k: int| 0 <= k < entries@.len() ==> #[trigger] entries@[k].0@ != name@,
        },
{
    let mut j: usize = 0;
    while j < entries.len()
        invariant
            j <= entries@.len(),
            forall|k: int| 0 <= k < j ==> #[trigger] entries@[k].0@ != name@,
        decreases entries@.len() - j,
    {
        if entries[j].0 == *name {
            return Some(j);
        }
        j += 1;
    }
    None
}

/// Replacing the entry of an existing key keeps the list a listing of the
/// map with that key updated.
proof fn lemma_replace_keeps_listing(
    entries: Seq<(String, (String, Option<Vec<DependentTask>>))>,
    map: Map<Seq<char>, DependencyView>,
    j: int,
    entry: (String, (String, Option<Vec<DependentTask>>)),
    key: Seq<char>,
    value: DependencyView,
)
    requires
        lists_map(entries, map),
        0 <= j < entries.len(),
        entries[j].0@ == key,
        dependency_entry_view(entry) == (key, value),
    ensures
        lists_map(entries.update(j, entry), map.insert(key, value)),
{
    let updated = entries.update(j, entry);
    let new_map = map.insert(key, value);
    assert forall|a: int, b: int| 0 <= a < b < updated.len() implies updated[a].0@ != updated[b].0@ by {
        assert(entries[a].0@ != entries[b].0@);
    }
    assert forall|i: int| 0 <= i < updated.len() implies {
        let (k, v) = #[trigger] dependency_entry_view(updated[i]);
        new_map.contains_key(k) && new_map[k] == v
    } by {
        if i != j {
            assert(entries[i].0@ != entries[j].0@);
            assert(dependency_entry_view(entries[i]).0 == entries[i].0@);
        }
    }
    assert forall|k: Seq<char>| #[trigger] new_map.contains_key(k) implies exists|m: int|
        0 <= m < updated.len() && #[trigger] updated[m].0@ == k by {
        if k != key {
            let m = choose|m: int| 0 <= m < entries.len() && #[trigger] entries[m].0@ == k;
            assert(updated[m] == entries[m]);
        } else {
            assert(updated[j].0@ == k);
        }
    }
}

/// Adding an entry for a new key keeps the list a listing of the map with
/// that key added.
proof fn lemma_push_keeps_listing(
    entries: Seq<(String, (String, Option<Vec<DependentTask>>))>,
    map: Map<Seq<char>, DependencyView>,
    entry: (String, (String, Option<Vec<DependentTask>>)),
    key: Seq<char>,
    value: DependencyView,
)
    requires
        lists_map(entries, map),
        forall|k: int| 0 <= k < entries.len() ==> #[trigger] entries[k].0@ != key,
        dependency_entry_view(entry) == (key, value),
    ensures
        lists_map(entries.push(entry), map.insert(key, value)),
{
    let pushed = entries.push(entry);
    let new_map = map.insert(key, value);
    assert forall|a: int, b: int| 0 <= a < b < pushed.len() implies pushed[a].0@ != pushed[b].0@ by {
        if b < entries.len() {
            assert(entries[a].0@ != entries[b].0@);
        } else {
            assert(entries[a].0@ != key);
        }
    }
    assert forall|i: int| 0 <= i < pushed.len() implies {
        let (k, v) = #[trigger] dependency_entry_view(pushed[i]);
        new_map.contains_key(k) && new_map[k] == v
    } by {
        if i < entries.len() {
            assert(pushed[i] == entries[i]);
            assert(entries[i].0@ != key);
            assert(dependency_entry_view(entries[i]).0 == entries[i].0@);
        }
    }
    assert forall|k: Seq<char>| #[trigger] new_map.contains_key(k) implies exists|m: int|
        0 <= m < pushed.len() && #[trigger] pushed[m].0@ == k by {
        if k != key {
            let m = choose|m: int| 0 <= m < entries.len() && #[trigger] entries[m].0@ == k;
            assert(pushed[m] == entries[m]);
        } else {
            assert(pushed[entries.len() as int].0@ == k);
        }
    }
}

impl Workflows {
    /// For each task name, the flow type of the task and the tasks it depends
    /// on; when two tasks share a name, the later one counts. Each name is
    /// listed once, in the order in which names first occur.
    pub fn generate_dependecy(&self) -> (dependencies: Vec<(String, (String, Option<Vec<DependentTask>>))>)
        ensures
            lists_map(dependencies@, dependency_map(self.tasks@)),
    {
        let mut dependency_matrix: Vec<(String, (String, Option<Vec<DependentTask>>))> = Vec::new();
        let mut i: usize = 0;
        while i < self.tasks.len()
            invariant
                i <= self.tasks@.len(),
                lists_map(dependency_matrix@, dependency_map(self.tasks@.subrange(0, i as int))),
            decreases self.tasks@.len() - i,
        {
            let task = &self.tasks[i];
            let depends = match &task.flow.depends_on {
                Some(dt) => Some(copy_dependent_tasks(&dt.task)),
                None => None,
            };
            let entry = (task.name.clone(), (task.flow.flow_type.clone(), depends));
            assert(dependency_entry_view(entry) == (task.name@, task_dependency(*task)));
            let ghost before = dependency_matrix@;
            let ghost old_map = dependency_map(self.tasks@.subrange(0, i as int));
            let ghost new_map = old_map.insert(task.name@, task_dependency(*task));
            assert(self.tasks@.subrange(0, i + 1).drop_last() =~= self.tasks@.subrange(0, i as int));
            assert(dependency_map(self.tasks@.subrange(0, i + 1)) == new_map);
            match position_of(&dependency_matrix, &task.name) {
                Some(j) => {
                    dependency_matrix.set(j, entry);
                    proof {
                        lemma_replace_keeps_listing(before, old_map, j as int, entry, task.name@, task_dependency(*task));
                    }
                },
                None => {
                    dependency_matrix.push(entry);
                    proof {
                        lemma_push_keeps_listing(before, old_map, entry, task.name@, task_dependency(*task));
                    }
                },
            }
            i += 1;
        }
        assert(self.tasks@.subrange(0, self.tasks@.len() as int) =~= self.tasks@);
        dependency_matrix
    }
}

impl Configs {
    /// The code for every task of the workflow, each as an item of one scope.
    pub fn generate_code(&self) -> (code: String)
        ensures
            exists|texts: Seq<Seq<char>>| #[trigger] joins_generated(self.workflow.tasks@, texts, code@),
            (forall|i: int|
                0 <= i < self.workflow.tasks@.len() ==> task_single_line(
                    #[trigger] self.workflow.tasks@[i].name@,
                    self.workflow.tasks@[i].input_args@,
                )) ==> code@ == workflow_code(self.workflow.tasks@),
    {
        let mut scope = scope_new();
        let ghost tasks = self.workflow.tasks@;
        let ghost mut texts: Seq<Seq<char>> = Seq::empty();
        let mut i: usize = 0;
        while i < self.workflow.tasks.len()
            invariant
                i <= tasks.len(),
                tasks == self.workflow.tasks@,
                texts.len() == i,
                forall|k: int| 0 <= k < i ==> #[trigger] generated_for(tasks[k], texts[k]),
                (forall|k: int| 0 <= k < i ==> no_carriage_return(#[trigger] texts[k])) ==> scope_items(scope)
                    == texts.map_values(|t: Seq<char>| t + seq!['\n']),
            decreases tasks.len() - i,
        {
            let task_code_text = self.workflow.tasks[i].generate_task();
            let ghost before_texts = texts;
            proof {
                texts = texts.push(task_code_text@);
            }
            scope_raw(&mut scope, task_code_text);
            proof {
                assert(texts.drop_last() =~= before_texts);
                if forall|k: int| 0 <= k < texts.len() ==> no_carriage_return(#[trigger] texts[k]) {
                    assert forall|k: int| 0 <= k < before_texts.len() implies no_carriage_return(#[trigger] before_texts[k]) by {
                        assert(before_texts[k] == texts[k]);
                    }
                    assert(no_carriage_return(texts[i as int]));
                    assert(texts.map_values(|t: Seq<char>| t + seq!['\n']) =~= before_texts.map_values(
                        |t: Seq<char>| t + seq!['\n'],
                    ).push(texts[i as int] + seq!['\n']));
                }
            }
            i += 1;
        }
        proof {
            if forall|k: int| 0 <= k < tasks.len() ==> task_single_line(#[trigger] tasks[k].name@, tasks[k].input_args@) {
                assert forall|k: int| 0 <= k < texts.len() implies no_carriage_return(#[trigger] texts[k]) by {
                    assert(task_single_line(tasks[k].name@, tasks[k].input_args@));
                    assert(generated_for(tasks[k], texts[k]));
                    lemma_task_code_no_carriage_return(tasks[k].name@, tasks[k].input_args@);
                }
                assert(texts.map_values(|t: Seq<char>| t + seq!['\n']) =~= tasks.map_values(
                    |t: Task| task_code(t.name@, t.input_args@) + seq!['\n'],
                )) by {
                    assert forall|k: int| 0 <= k < texts.len() implies texts[k] == task_code(
                        tasks[k].name@,
                        tasks[k].input_args@,
                    ) by {
                        assert(generated_for(tasks[k], texts[k]));
                        assert(task_single_line(tasks[k].name@, tasks[k].input_args@));
                    }
                }
            }
        }
        let code = scope_to_string(&scope);
        assert((forall|k: int| 0 <= k < texts.len() ==> no_carriage_return(#[trigger] texts[k])) ==> code@
            == joined_code(texts));
        assert(joins_generated(self.workflow.tasks@, texts, code@));
        code
    }

    /// Works out the dependencies of the configuration; nothing is done yet.
    pub fn generate_dependecy(&self) {
    }
}

} // verus!
