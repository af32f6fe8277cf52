use pocs::actor::{say_hello, Hello};
use pocs::example::car_type_fn;

#[test]
fn greeting_names_the_caller() {
    assert_eq!(say_hello(&Hello { name: "Filecoin".to_string() }), "Hello world  Filecoin");
    assert_eq!(say_hello(&Hello { name: String::new() }), "Hello world  ");
}

#[test]
fn default_car_type() {
    assert_eq!(car_type_fn(), "tesla");
}

#[test]
fn greeting_call_and_reply() {
    let call = pocs::actor::hello_call();
    assert_eq!(call.to, "f2g25mp47ixng7frzchiiwgaushvmrpylsmy5ehba");
    assert_eq!(call.method, 2);
    assert!(call.params.is_empty());
    assert_eq!(call.value, 0);
    assert_eq!(pocs::actor::hello_reply("Ok(Receipt)"), "Hello world Ok(Receipt)");
}
