use account_ledger::container::{Container, Mobile};
use account_ledger::generics::{first_element, pair_sum, to_lower};
use account_ledger::tweet::Tweet;
use account_ledger::vehicles::{
    create_paint_able_object, paint_blue, paint_green, paint_red, Car, House,
};
use account_ledger::web_command::WebCommand;

#[test]
fn first_element_of_empty_slice_is_none() {
    let empty: [i32; 0] = [];
    assert_eq!(first_element(&empty), None);
}

#[test]
fn first_element_returns_the_head() {
    let list = vec![1, 2, 3, 4];
    assert_eq!(first_element(&list), Some(&1));
}

#[test]
fn to_lower_accepts_any_borrow() {
    to_lower(&"Riyad_Karim".to_string());
    to_lower(&42);
}

#[test]
fn pair_sum_adds() {
    assert_eq!(pair_sum(12, 14), 26);
    assert_eq!(pair_sum(-5, 3), -2);
}

#[test]
fn web_command_keeps_payload() {
    let cmd1 = WebCommand::new("connected port 200".to_string(), 200);
    assert_eq!(*cmd1.get_payload(), 200);

    let cmd2 = WebCommand::new("get user name".to_string(), "riyad".to_string());
    assert_eq!(cmd2.get_payload(), "riyad");
}

#[test]
fn tweet_replace_returns_old_content() {
    let mut tweet = Tweet::new("learning rust");
    let old_content = tweet.replace_content("learning advance rust");
    assert_eq!(old_content, "learning rust");
    // A second swap hands back what the first swap put in.
    let newer = tweet.replace_content("learning verus");
    assert_eq!(newer, "learning advance rust");
}

#[test]
fn container_demo_builds_one_phone() {
    let list = account_ledger::container::test();
    assert_eq!(list.len(), 1);
    assert_eq!(list[0].name(), "Nokia");
    assert_eq!(list[0].model(), "1110rs");
    assert_eq!(list[0].price(), 1231);
}

#[test]
fn mobile_container_roundtrip() {
    let nokia = account_ledger::container::test();
    let created = nokia[0].create();
    assert_eq!(created.len(), 1);
    assert_eq!(created[0].name(), "Motorola ");
    assert_eq!(created[0].model(), "rtx");
    assert_eq!(created[0].price(), 12300);

    assert_eq!(nokia[0].get(), "product created");

    let stored = nokia[0].store(vec![created]);
    assert_eq!(stored.len(), 1);
    assert_eq!(stored[0].len(), 1);
    nokia[0].delete();
}

#[test]
fn car_parks_with_its_name() {
    let car = Car::new(
        "tesla".to_string(),
        "CarX".to_string(),
        "XPA5".to_string(),
        2015,
    );
    assert_eq!(paint_red(&car), "A tesla is parking beside the tree");
}

#[test]
fn house_paints_and_parks() {
    let house = House {};
    assert_eq!(paint_green(&house), "Painting house with green ");
    assert_eq!(paint_blue(&house), "Painting house with blue ");
}

#[test]
fn created_paintable_object_parks_quietly() {
    let house = create_paint_able_object();
    assert_eq!(paint_red(&house), "");
}
