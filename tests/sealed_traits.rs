use idiom_patterns::shared_implementation::all_callable_some_overridable::Greet as SealedGreet;
use idiom_patterns::shared_implementation::no_restrictions::Greet;
use idiom_patterns::shared_implementation::sealed_traits::Person;

#[test]
fn open_trait_greets_and_overrides_goodbye() {
    let p = Person;
    assert_eq!(Greet::greet(&p), "Hi from a person!");
    assert_eq!(p.goodbye(), "Bye from a person!");
}

#[test]
fn sealed_trait_uses_defaults() {
    let p = Person;
    assert_eq!(SealedGreet::greet(&p), "Hello from default");
    assert_eq!(p.final_greet(), "(final) Hello world");
}
