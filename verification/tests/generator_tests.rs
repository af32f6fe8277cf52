use pocs::generator::{convert_to_pascal, Args, Configs, DependentTask, DependsOn, Flow, Task, Workflows};
use std::collections::HashMap;

fn task(name: &str, args: &[(&str, &str)], flow: Flow) -> Task {
    Task {
        kind: "openwhisk".to_string(),
        name: name.to_string(),
        input_args: args.iter().map(|(n, t)| Args { name: n.to_string(), arg_type: t.to_string() }).collect(),
        properties: HashMap::new(),
        flow,
    }
}

fn flow(flow_type: &str, task_name: &str, depends_on: Option<DependsOn>) -> Flow {
    Flow { flow_type: flow_type.to_string(), task_name: task_name.to_string(), depends_on }
}

fn depends(name: &str, fields: &[&str]) -> DependentTask {
    DependentTask { name: name.to_string(), fields: fields.iter().map(|f| f.to_string()).collect() }
}

fn car_market_place() -> Configs {
    Configs {
        workflow: Workflows {
            name: "car_market_place".to_string(),
            version: "0.0.1".to_string(),
            tasks: vec![
                task("cartype", &[("car_type", "String")], flow("Init", "cartype", None)),
                task(
                    "modelavail",
                    &[("car_company_list", "HashMap<String,Vec<String>>"), ("company_name", "String")],
                    flow(
                        "Pipe",
                        "modelavail",
                        Some(DependsOn { operation: None, task: vec![depends("cartype", &["car_company_list"])] }),
                    ),
                ),
                task(
                    "purchase",
                    &[("model_price_list", "HashMap<String,i32>"), ("model_name", "String"), ("price", "i32")],
                    flow(
                        "Term",
                        "purchase",
                        Some(DependsOn {
                            operation: Some("concat".to_string()),
                            task: vec![depends("modelavail", &["models"]), depends("cartype", &["car_type"])],
                        }),
                    ),
                ),
            ],
        },
    }
}

#[test]
fn lib_read_file() {
    let config = car_market_place();
    let r = config.workflow.generate_dependecy();
    println!("{:#?}", r);
    assert_eq!(r.len(), 3);
    assert_eq!(r[0].0, "cartype");
    assert_eq!(r[0].1 .0, "Init");
    assert!(r[0].1 .1.is_none());
    assert_eq!(r[2].0, "purchase");
    let purchase_deps = r[2].1 .1.as_ref().unwrap();
    assert_eq!(purchase_deps.len(), 2);
    assert_eq!(purchase_deps[0].name, "modelavail");
    assert_eq!(purchase_deps[1].fields, vec!["car_type".to_string()]);
}

#[test]
fn convert_to_pascal_joins_words() {
    assert_eq!(convert_to_pascal("cartype"), "Cartype");
    assert_eq!(convert_to_pascal("car_type"), "CarType");
    assert_eq!(convert_to_pascal("model avail"), "ModelAvail");
}

#[test]
fn generate_task_writes_input_and_main_structs() {
    let t = task("cartype", &[("car_type", "String")], flow("Init", "cartype", None));
    assert_eq!(
        t.generate_task(),
        "pub struct CartypeInput {\n    car_type: String,\n}\n\npub struct Cartype {\n    action_name: String,\n    pub input_args: CartypeInput,\n    pub output: Value,\n}"
    );
}

#[test]
fn generate_task_without_arguments_has_an_empty_input_struct() {
    let t = task("model_price", &[], flow("Init", "model_price", None));
    assert_eq!(
        t.generate_task(),
        "pub struct ModelPriceInput;\n\npub struct ModelPrice {\n    action_name: String,\n    pub input_args: ModelPriceInput,\n    pub output: Value,\n}"
    );
}

#[test]
fn generate_impl_for_task_is_empty() {
    let t = task("cartype", &[], flow("Init", "cartype", None));
    assert_eq!(t.generate_impl_for_task(), "");
}

#[test]
fn generate_code_writes_every_task_in_order() {
    let config = car_market_place();
    let code = config.generate_code();
    let tasks = &config.workflow.tasks;
    let expected = format!(
        "{}\n\n{}\n\n{}",
        tasks[0].generate_task(),
        tasks[1].generate_task(),
        tasks[2].generate_task()
    );
    assert_eq!(code, expected);
    assert!(code.starts_with("pub struct CartypeInput {"));
}

#[test]
fn generate_dependecy_keeps_the_later_task_of_a_name() {
    let mut config = car_market_place();
    config.workflow.tasks.push(task("cartype", &[], flow("Pipe", "cartype", None)));
    let r = config.workflow.generate_dependecy();
    assert_eq!(r.len(), 3);
    assert_eq!(r[0].0, "cartype");
    assert_eq!(r[0].1 .0, "Pipe");
    assert_eq!(r[1].0, "modelavail");
}

#[test]
fn generate_dependecy_of_no_tasks_is_empty() {
    let config = Configs {
        workflow: Workflows { name: "w".to_string(), version: "1".to_string(), tasks: vec![] },
    };
    assert!(config.workflow.generate_dependecy().is_empty());
    config.generate_dependecy();
}
