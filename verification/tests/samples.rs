use framelink::animal::{make_speak, print_sound, Animal, Cat, Dog, Pet};
use framelink::closure::{apply_to_value, call_closure, make_adder_1};
use framelink::container::{BoxContainer, Container};
use framelink::ownership::{update_age, MyStruct4, User};
use framelink::same_name::{Driver, Facility, Factory, Lab, Person, Pilot};

#[test]
fn test_dog() {
    let dog = Dog::new();
    assert_eq!(dog.sound(), "Woof!");
    assert_eq!(dog.name(), "Buddy");
}

#[test]
fn test_cat() {
    let cat = Cat;
    assert_eq!(cat.sound(), "Meow!");
}

#[test]
fn test_print_sound() {
    let cat = Cat;
    println!("{}", print_sound(cat));
}

#[test]
fn test_make_speak() {
    let dog = Dog::new();
    println!("{}", make_speak(&dog));
}

#[test]
fn test_trait_object() {
    let dog = Dog::new();
    let cat = Cat;
    let animals = vec![&dog as &dyn Pet, &cat as &dyn Pet];
    for animal in animals {
        println!("{} says: {}", animal.name(), animal.sound());
    }
}

#[test]
fn test_trait_object_as_any() {
    let dog = Dog;
    let cat = Cat;
    println!("{}", make_speak(&dog));
    println!("{}", make_speak(&cat));
}

#[test]
fn test_container() {
    let mut box_container = BoxContainer { items: Vec::new() };
    box_container.add(1);
    println!("{:?}", box_container.remove());
}

#[test]
fn test_same_name() {
    let person = Person;

    println!("{}", <Person as Driver>::drive(&person));
    println!("{}", <Person as Pilot>::drive(&person));
}

#[test]
fn test_associated_functions() {
    let product = <Facility as Factory>::create();
    let experiment = <Facility as Lab>::create();
    println!("{} and {}", product, experiment);
}

#[test]
fn test_apply_to_value() {
    let double = |x| x * 2;
    let result = apply_to_value(5, double);
    println!("Result: {}", result);
}

#[test]
fn test_make_adder_1() {
    let add_five = make_adder_1(5);
    println!("5 + 3 = {}", add_five(3));
}

#[test]
fn test_call_closure() {
    let name = String::from("Rust");

    let print_name = move || println!("Hello, {}!", name);

    call_closure(print_name);
}

#[test]
fn test_closure_life_cycle() {
    let _add_one = |x: i32| x + 1;
    let calculate = |a, b, c| a * b + c;
    let _result: i32 = calculate(1, 2, 3);

    let add = |a, b| a + b;
    println!("{}", add(2, 3));
}

#[test]
fn life_cycle_test_life_cycle4() {
    let mut s = MyStruct4 { data: 0 };
    {
        s.modify();
    }
    {
        s.modify();
    }
    println!("最终值: {}", s.data);
}

#[test]
fn life_cycle_1_test_life_cycle2() -> Result<(), ()> {
    let mut user = User {
        name: String::from("Bob"),
        age: 25,
    };

    update_age(&mut user);

    update_age(&mut user);
    Ok(())
}

#[test]
fn life_cycle_1_test_life_cycle4() -> Result<(), ()> {
    let user = User {
        name: String::from("Charlie"),
        age: 40,
    };

    let user = user.with_age(41);

    println!("Updated age: {}", user.age);
    Ok(())
}

#[test]
fn dog_and_cat_say_their_lines() {
    assert_eq!(make_speak(&Dog::new()), "Woof!");
    assert_eq!(make_speak(&Cat), "Meow!");
    assert_eq!(Cat.name(), "Tom");
    assert_eq!(print_sound(Dog), "The animal says: Woof!");
}

#[test]
fn container_hands_back_the_last_item_first() {
    let mut container = BoxContainer { items: Vec::new() };
    assert_eq!(container.remove(), None);
    container.add(1);
    container.add(2);
    assert_eq!(container.items, vec![1, 2]);
    assert_eq!(container.remove(), Some(2));
    assert_eq!(container.remove(), Some(1));
    assert_eq!(container.remove(), None);
}

#[test]
fn same_name_methods_stay_apart() {
    let person = Person;
    assert_eq!(<Person as Driver>::drive(&person), "Person is driving a car");
    assert_eq!(<Person as Pilot>::drive(&person), "Person is flying a plane");
    assert_eq!(<Facility as Factory>::create(), "Product");
    assert_eq!(<Facility as Lab>::create(), "Experiment");
}

#[test]
fn closures_compute_what_they_say() {
    assert_eq!(apply_to_value(5, |x| x * 2), 10);
    assert_eq!(make_adder_1(5)(3), 8);
    assert_eq!(make_adder_1(-7)(7), 0);
    let mut called = false;
    call_closure(|| called = true);
    assert!(called);
}

#[test]
fn borrowed_values_change_in_place() {
    let mut counter = MyStruct4 { data: 0 };
    counter.modify();
    counter.modify();
    assert_eq!(counter.data, 2);

    let mut user = User { name: String::from("Bob"), age: 25 };
    update_age(&mut user);
    update_age(&mut user);
    assert_eq!(user.age, 27);
    assert_eq!(user.name, "Bob");

    let user = user.with_age(41);
    assert_eq!(user.age, 41);
    assert_eq!(user.name, "Bob");
}
