use callgraph::conditionally_compiled::bar;
use callgraph::conditionally_compiled::foo;
use callgraph::dynamic_dispatch::dynamic;
use callgraph::dynamic_dispatch::dynamic_default;
use callgraph::dynamic_dispatch::dynamic_generic;
use callgraph::dynamic_dispatch::dynamic_ufcs;
use callgraph::dynamic_dispatch::run as dynamic_run;
use callgraph::fat::Fat;
use callgraph::function_pointers::indirection;
use callgraph::function_pointers::indirection_fn_trait;
use callgraph::function_pointers::indirection_generic;
use callgraph::function_pointers::indirection_trait_object;
use callgraph::function_pointers::m1;
use callgraph::function_pointers::m2;
use callgraph::function_pointers::run as pointers_run;
use callgraph::function_pointers::run_benchmark;
use callgraph::generics::impl_trait;
use callgraph::generics::monomorphized;
use callgraph::generics::monomorphized_foreign_bound;
use callgraph::generics::monomorphized_i32;
use callgraph::generics::monomorphized_where;
use callgraph::generics::One;
use callgraph::generics::Two;
use callgraph::generics::Wrapper;
use callgraph::helloworld::Hello;
use callgraph::helloworld::HelloWorld;
use callgraph::macros::MacroStruct;
use callgraph::structs::One as StructsOne;
use callgraph::structs::Two as StructsTwo;
use callgraph::subs::Sub;
use callgraph::subs::Sub1;
use callgraph::subs::Sub2;
use callgraph::subs::SubTrait;
use callgraph::thin::Thin;
use callgraph::traits::BarTrait;
use callgraph::traits::BazTrait;
use callgraph::traits::DefaultTrait;
use callgraph::traits::FooTrait;
use callgraph::traits::GenericFooTrait;
use callgraph::traits::MacroTrait;

#[test]
fn static_dispatch_on_structs() {
    assert_eq!(StructsOne::method_1(), 1);
    let mut one = StructsOne;
    assert_eq!(one.method_2(), 2);
    assert_eq!(StructsOne.method_2(), 2);
    let mut two = StructsTwo::new(0);
    assert_eq!(two.method_1(), 1);
    assert_eq!(two.method_2(), 2);
    assert_eq!(two.0, 1);
}

#[test]
fn qualified_calls_on_fat() {
    let fat = Fat(100);
    // inherent &self method outranks the trait methods of the same name
    assert_eq!(fat.method(), 100);
    // qualified syntax circumvents lookup
    assert_eq!(FooTrait::method(&fat), 110);
    assert_eq!(<Fat as BarTrait>::method(&fat), 200);
    // both BarTrait and BazTrait in scope: qualified syntax disambiguates
    assert_eq!(<Fat as BarTrait>::another_method(&fat), 201);
    assert_eq!(<Fat as BazTrait>::another_method(&fat), 1101);
}

#[test]
fn default_methods() {
    let fat = Fat(100);
    // inherent associated function, not the trait's
    assert_eq!(Fat::default_method_no_self(), 1);
    // the impl overrides both defaults
    assert_eq!(<Fat as DefaultTrait>::default_method_no_self(), 2);
    assert_eq!(fat.default_method(), 1);
    // Thin keeps the defaulted specifications
    assert_eq!(Thin::default_method_no_self(), 0);
    assert_eq!(Thin.default_method(), 0);
}

#[test]
fn dynamic_dispatch_fixtures() {
    let fat = Fat(10);
    let thin = Thin;
    assert_eq!(dynamic(&fat), 20);
    assert_eq!(dynamic(&thin), 0);
    assert_eq!(dynamic_ufcs(&fat as &dyn FooTrait), 20);
    assert_eq!(dynamic_default(&fat), 1);
    assert_eq!(dynamic_default(&thin), 0);
    assert_eq!(dynamic_generic(&thin as &dyn GenericFooTrait<u32>), 42u32);
    assert_eq!(dynamic_generic(&thin as &dyn GenericFooTrait<i32>), 42i32);
    dynamic_run();
}

#[test]
fn function_pointer_fixtures() {
    let f = Fat(10);
    assert_eq!(indirection(&f, Fat::method), 10);
    assert_eq!(indirection(&f, FooTrait::method), 20);
    assert_eq!(indirection(&f, <Fat as BarTrait>::method), 110);
    assert_eq!(indirection_generic(&f, Fat::method), 10);
    assert_eq!(indirection_trait_object(&f, m2), 20);
    assert_eq!(indirection_trait_object(&f, m1), 20);
    assert_eq!(indirection_fn_trait(&f, &Fat::method), 10);
    pointers_run();
    run_benchmark(pointers_run);
}

#[test]
fn generics_fixtures() {
    assert_eq!(monomorphized(StructsOne), 1);
    assert_eq!(monomorphized_foreign_bound(One), 1);
    assert_eq!(monomorphized_foreign_bound(Two), 2);
    assert_eq!(monomorphized_foreign_bound::<Two>(Two), 2);
    assert_eq!(impl_trait(One), 1);
    assert_eq!(monomorphized_i32(Two), 42);
    let n: i32 = monomorphized_where(Two);
    assert_eq!(n, 42);
    let wrapper = Wrapper::<StructsOne>::new(StructsOne);
    assert_eq!(wrapper.method_wrapper(), 1);
}

#[test]
fn conditionally_compiled_fixtures() {
    assert_eq!(foo(true), 1);
    assert_eq!(foo(false), 2);
    assert_eq!(bar(true), 1);
    assert_eq!(bar(false), 2);
}

#[test]
fn macro_expansion_fixture() {
    // the hand-written expansion of the derive
    assert_eq!(MacroStruct.method(), 100);
    assert_eq!(MacroStruct.another_method(), 100);
    // a declarative macro over these fixtures expands to qualified trait
    // calls pushed into a vector; written out, it reads like this
    let fat = Fat(1000);
    let thin = Thin;
    let mut results: Vec<u32> = Vec::new();
    let result = FooTrait::method(&fat);
    results.push(result);
    let result = FooTrait::method(&thin);
    results.push(result);
    assert_eq!(results, vec![1010, 0]);
}

#[test]
fn helloworld_fixtures() {
    let hi = Hello::hi();
    assert_eq!(hi, "Hi");
    assert_eq!(Hello.hello(), "Hello");
    let mut hw = HelloWorld::new(String::from("!"));
    assert_eq!(hw.greet(&hi), "Hi world !");
    hw.update(String::from("?"));
    assert_eq!(hw.greet_excited(&hi), "Hi world ?!");
    assert_eq!(hw.0, "?!");
}

#[test]
fn sub_fixtures() {
    assert_eq!(Sub(7).sub(), 7);
    assert_eq!(Sub1(7).sub(), 6);
    assert_eq!(Sub2(7).sub(), 5);
}
