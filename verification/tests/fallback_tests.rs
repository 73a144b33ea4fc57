use failsafe::failsafe::Failsafe;
use failsafe::failsafe_error::FailsafeError;
use failsafe::policies::fallback::{FallbackFactory, FallbackPolicy, FixedFallback};
use failsafe::policies::retry::RetryPolicy;
use failsafe::policies::PolicyKind;
use failsafe::{Runnable, ScriptOperation};

#[derive(Debug, Clone, PartialEq)]
enum PersonError {
    NameFindingError,
}

#[derive(Clone, Debug, PartialEq)]
struct Person {
    name: Option<String>,
    always_fail: bool,
}

impl Person {
    fn new() -> Self {
        Person { name: None, always_fail: false }
    }

    fn with_name(name: &str) -> Self {
        Person { name: Some(name.to_string()), always_fail: false }
    }

    fn set_name(&mut self, name: &str) {
        self.name = Some(name.to_string());
    }

    fn name(&self) -> String {
        self.name.clone().unwrap()
    }

    fn set_always_fail(&mut self, always_fail: bool) {
        self.always_fail = always_fail;
    }
}

impl Runnable for Person {
    type Error = PersonError;
    type Fallback = Person;

    fn attempts(&self) -> vstd::seq::Seq<bool> {
        unreachable!()
    }

    fn substitutions(&self) -> vstd::seq::Seq<Person> {
        unreachable!()
    }

    fn failures(&self) -> vstd::seq::Seq<PersonError> {
        unreachable!()
    }


    fn execute(&mut self) -> Result<(), PersonError> {
        if self.always_fail {
            return Err(PersonError::NameFindingError);
        }
        self.name = Some(String::from("resolved"));
        Ok(())
    }

    fn substitute(&mut self, value: &Person) {
        self.name = value.name.clone();
    }

    fn wait(&mut self, _millis: u64) {}
}

fn check_expected_error(r: Result<(), FailsafeError<PersonError>>, expected: &str) -> bool {
    match r {
        Ok(_) => false,
        Err(e) => format!("{:?}", e) == expected,
    }
}

struct CountingFactory {
    k: u64,
}

impl FallbackFactory for CountingFactory {
    type Value = Person;

    fn produced(&self) -> vstd::seq::Seq<Person> {
        unreachable!()
    }

    fn produce(&mut self) -> Person {
        self.k += 1;
        let s = format!("Person {}", self.k);
        let mut p = Person::new();
        p.set_name(&s);
        p
    }
}

struct RotatingFactory {
    k: usize,
    names: Vec<String>,
}

impl FallbackFactory for RotatingFactory {
    type Value = Person;

    fn produced(&self) -> vstd::seq::Seq<Person> {
        unreachable!()
    }

    fn produce(&mut self) -> Person {
        self.k += 1;
        if self.k >= self.names.len() {
            self.k = 0;
        }
        Person::with_name(&self.names[self.k])
    }
}

#[test]
fn fallback_callback() {
    let mut safe = Failsafe::builder()
        .push(PolicyKind::Retry(RetryPolicy::new(1, 50)))
        .push(PolicyKind::Fallback(FallbackPolicy::new(CountingFactory { k: 0 })))
        .push(PolicyKind::Retry(RetryPolicy::new(3, 50)))
        .build();
    let mut person = Person::new();
    person.set_always_fail(true);
    let _person_result = { safe.run(&mut person) };
    assert_eq!("Person 1", person.name());
    let _person_result = { safe.run(&mut person) };
    assert_eq!("Person 2", person.name());
    let _person_result = { safe.run(&mut person) };
    assert_eq!("Person 3", person.name());
}

#[test]
fn test_fallback() {
    let mut safe = Failsafe::builder()
        .push(PolicyKind::Fallback(FallbackPolicy::new(FixedFallback::new(Person::with_name(
            "No Name",
        )))))
        .build();
    let mut person = Person::new();
    person.set_always_fail(true);
    let person_result = { safe.run(&mut person) };
    assert!(check_expected_error(person_result, "UsedFallback"));
}

#[test]
fn test_using_different_value_from_fallback() {
    let mut safe = {
        let names = vec![
            String::from(""),
            String::from("Picard"),
            String::from("Riker"),
            String::from("Data"),
        ];
        Failsafe::builder()
            .push(PolicyKind::Retry(RetryPolicy::new(1, 50)))
            .push(PolicyKind::Fallback(FallbackPolicy::new(RotatingFactory { k: 0, names })))
            .push(PolicyKind::Retry(RetryPolicy::new(3, 50)))
            .build()
    };
    let mut person = Person::new();
    person.set_always_fail(true);
    let _ = { safe.run(&mut person) };
    assert_eq!("Picard", person.name());
    let _ = { safe.run(&mut person) };
    assert_eq!("Riker", person.name());
    let _ = { safe.run(&mut person) };
    assert_eq!("Data", person.name());
}

#[test]
fn fallback_substitutes_exactly_once_per_engagement() {
    let mut safe = Failsafe::builder()
        .push(PolicyKind::Fallback(FallbackPolicy::new(CountingFactory { k: 0 })))
        .build();
    let mut person = Person::new();
    person.set_always_fail(true);
    let r = safe.run(&mut person);
    assert!(check_expected_error(r, "UsedFallback"));
    assert_eq!("Person 1", person.name());
}

#[test]
fn fallback_stays_quiet_on_success() {
    let mut safe = Failsafe::builder()
        .push(PolicyKind::Fallback(FallbackPolicy::new(FixedFallback::new(Person::with_name(
            "spare",
        )))))
        .build();
    let mut person = Person::new();
    let r = safe.run(&mut person);
    assert!(r.is_ok());
    assert_eq!("resolved", person.name());
}

#[test]
fn script_operation_takes_the_substituted_value() {
    let mut safe = Failsafe::builder()
        .push(PolicyKind::Fallback(FallbackPolicy::new(FixedFallback::new(String::from(
            "spare",
        )))))
        .build();
    let mut op: ScriptOperation<String> = ScriptOperation::new(vec![false]);
    let r = safe.run(&mut op);
    assert!(matches!(r, Err(FailsafeError::UsedFallback)));
    assert_eq!(op.value, Some(String::from("spare")));
}

#[test]
fn script_operation_follows_its_script() {
    let mut op: ScriptOperation<u8> = ScriptOperation::new(vec![false, true]);
    assert!(matches!(op.execute(), Err(0)));
    assert!(op.execute().is_ok());
    // the script cycles back to its first entry
    assert!(matches!(op.execute(), Err(0)));
    assert!(op.execute().is_ok());
}
