use failsafe::failsafe::Failsafe;
use failsafe::failsafe_error::FailsafeError;
use failsafe::policies::fallback::FixedFallback;
use failsafe::policies::retry::RetryPolicy;
use failsafe::policies::PolicyKind;
use failsafe::Runnable;

#[derive(Debug, Clone, PartialEq)]
enum PersonError {
    NameFindingError,
}

#[derive(Clone, Debug, PartialEq)]
struct Person {
    name: Option<String>,
    always_fail: bool,
    fail_pattern: Vec<bool>,
    at: usize,
    calls: u64,
}

impl Person {
    fn new() -> Self {
        Person { name: None, always_fail: false, fail_pattern: Vec::new(), at: 0, calls: 0 }
    }

    fn set_always_fail(&mut self, always_fail: bool) {
        self.always_fail = always_fail;
    }

    fn set_fail_pattern(&mut self, fail_pattern: Vec<bool>) {
        self.fail_pattern = fail_pattern;
        self.at = 0;
    }
}

impl Runnable for Person {
    type Error = PersonError;
    type Fallback = Person;

    fn attempts(&self) -> vstd::seq::Seq<bool> {
        unreachable!()
    }

    fn substitutions(&self) -> vstd::seq::Seq<Person> {
        unreachable!()
    }

    fn failures(&self) -> vstd::seq::Seq<PersonError> {
        unreachable!()
    }


    fn execute(&mut self) -> Result<(), PersonError> {
        self.calls += 1;
        let fails = if !self.fail_pattern.is_empty() {
            let v = self.fail_pattern[self.at % self.fail_pattern.len()];
            self.at += 1;
            v
        } else {
            self.always_fail
        };
        if fails {
            return Err(PersonError::NameFindingError);
        }
        self.name = Some(String::from("resolved"));
        Ok(())
    }

    fn substitute(&mut self, value: &Person) {
        self.name = value.name.clone();
    }

    fn wait(&mut self, _millis: u64) {}
}

fn check_expected_error(r: Result<(), FailsafeError<PersonError>>, expected: &str) -> bool {
    match r {
        Ok(_) => false,
        Err(e) => format!("{:?}", e) == expected,
    }
}

fn retry_engine(retries: u64, delay: u64) -> Failsafe<FixedFallback<Person>> {
    Failsafe::builder().push(PolicyKind::Retry(RetryPolicy::new(retries, delay))).build()
}

#[test]
fn test_retry_policy_with_always_failing() {
    let mut safe = retry_engine(3, 50);
    let mut person = Person::new();
    person.set_always_fail(true);
    let person_result = { safe.run(&mut person) };
    assert!(check_expected_error(person_result, "RetryError"));
}

#[test]
fn test_retry_policy_working_after_few_retries() {
    let mut safe = retry_engine(3, 50);
    let mut person = Person::new();
    person.set_fail_pattern(vec![false, true, true, false]);
    let person_result = { safe.run(&mut person) };
    assert!(person_result.is_ok());
}

#[test]
fn retry_policy_on_fail() {
    let mut safe = retry_engine(3, 50);
    let mut person = Person::new();
    person.set_always_fail(true);
    let person_result = { safe.run(&mut person) };
    assert_eq!(
        person_result.expect_err("What error!").message(),
        FailsafeError::<PersonError>::RetryError.message()
    );
}

#[test]
fn test_if_retry_policy_multiple_run_correctly_reset() {
    let mut safe = retry_engine(3, 50);
    let mut person = Person::new();
    person.set_fail_pattern(vec![false, true, true]);
    let person_result = { safe.run(&mut person) };
    assert!(person_result.is_ok());
    // should be same
    let mut person = Person::new();
    person.set_fail_pattern(vec![false, true, true]);
    let person_result = { safe.run(&mut person) };
    assert!(person_result.is_ok());
}

#[test]
fn retry_budget_spends_every_attempt() {
    // an always-failing operation under RetryPolicy(n, d) is executed
    // exactly n times before RetryError surfaces
    let mut safe = retry_engine(4, 1);
    let mut person = Person::new();
    person.set_always_fail(true);
    let r = safe.run(&mut person);
    assert!(check_expected_error(r, "RetryError"));
    assert_eq!(person.calls, 4);
}

#[test]
fn retry_stops_at_first_success() {
    // failing twice and then succeeding takes exactly three attempts
    let mut safe = retry_engine(5, 1);
    let mut person = Person::new();
    person.set_fail_pattern(vec![true, true, false, false, false]);
    let r = safe.run(&mut person);
    assert!(r.is_ok());
    assert_eq!(person.calls, 3);
}

#[test]
fn retry_counter_is_zero_after_each_outcome() {
    let mut safe = retry_engine(2, 1);
    let mut person = Person::new();
    person.set_always_fail(true);
    assert!(safe.run(&mut person).is_err());
    person.set_always_fail(false);
    assert!(safe.run(&mut person).is_ok());
    assert_eq!(person.calls, 3);
}
