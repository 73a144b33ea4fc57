use failsafe::failsafe_error::FailsafeError;
use failsafe::policies::circuit_breaker::{CircuitBreakerPolicy, CircuitBreakerState};
use failsafe::policies::fallback::FixedFallback;
use failsafe::policies::{PolicyKind, PolicyNode};
use failsafe::Runnable;

#[derive(Debug, Clone, PartialEq)]
enum PersonError {
    NameFindingError,
}

#[derive(Clone, Debug, PartialEq)]
struct Person {
    name: Option<String>,
    always_fail: bool,
    fail_pattern: Vec<bool>,
    at: usize,
    calls: u64,
}

impl Person {
    fn new() -> Self {
        Person { name: None, always_fail: false, fail_pattern: Vec::new(), at: 0, calls: 0 }
    }

    fn set_always_fail(&mut self, always_fail: bool) {
        self.always_fail = always_fail;
    }

    fn set_fail_pattern(&mut self, fail_pattern: Vec<bool>) {
        self.fail_pattern = fail_pattern;
        self.at = 0;
    }
}

fn busy_wait_millis(millis: u64) {
    let start = std::time::Instant::now();
    while (start.elapsed().as_millis() as u64) < millis {}
}

impl Runnable for Person {
    type Error = PersonError;
    type Fallback = Person;

    fn attempts(&self) -> vstd::seq::Seq<bool> {
        unreachable!()
    }

    fn substitutions(&self) -> vstd::seq::Seq<Person> {
        unreachable!()
    }

    fn failures(&self) -> vstd::seq::Seq<PersonError> {
        unreachable!()
    }


    fn execute(&mut self) -> Result<(), PersonError> {
        self.calls += 1;
        let fails = if !self.fail_pattern.is_empty() {
            let v = self.fail_pattern[self.at % self.fail_pattern.len()];
            self.at += 1;
            v
        } else {
            self.always_fail
        };
        if fails {
            return Err(PersonError::NameFindingError);
        }
        self.name = Some(String::from("resolved"));
        Ok(())
    }

    fn substitute(&mut self, value: &Person) {
        self.name = value.name.clone();
    }

    fn wait(&mut self, _millis: u64) {}
}

fn breaker_of(node: &PolicyNode<FixedFallback<Person>>) -> &CircuitBreakerPolicy {
    match &node.kind {
        PolicyKind::CircuitBreaker(cb) => cb,
        _ => panic!("the node does not hold a circuit breaker"),
    }
}

#[test]
fn circuit_breaker_impl() {
    let mut person = Person::new();
    person.set_fail_pattern(vec![
        false, // check if normal run possible
        true, true, true, true, true, false, // now reach the error threshold
        false, false, // this should be circuit breaker open error
        false, false, false, // now let's check if circuit breaker closes on success
        false, // now it should be all open
    ]);

    let mut policy: PolicyNode<FixedFallback<Person>> = PolicyNode::new(
        PolicyKind::CircuitBreaker(CircuitBreakerPolicy::new(5, 20, 2)),
    );
    let mut policy_errors: Vec<FailsafeError<PersonError>> = vec![];
    // check if normal run possible
    assert!(policy.run(&mut person, &mut policy_errors).is_ok());
    assert_eq!(policy_errors.len(), 0);
    policy_errors.clear();
    for _ in 0..=5 {
        let e = policy.run(&mut person, &mut policy_errors);
        if let Err(FailsafeError::RunnableError(_e)) = e {
            assert_eq!(PersonError::NameFindingError, _e);
        }
    }
    policy_errors.clear();
    assert_eq!(breaker_of(&policy).circuit_breaker_state(), CircuitBreakerState::Open);
    for _ in 0..=2 {
        let r = policy.run(&mut person, &mut policy_errors);
        if let Err(FailsafeError::CircuitBreakerOpen) = r {
            continue;
        }
        assert!(false)
    }
    busy_wait_millis(22);
    for _ in 0..1 {
        assert!(policy.run(&mut person, &mut policy_errors).is_ok());
        assert_eq!(breaker_of(&policy).circuit_breaker_state(), CircuitBreakerState::HalfOpen);
    }
    assert!(policy.run(&mut person, &mut policy_errors).is_ok());
    assert_eq!(breaker_of(&policy).circuit_breaker_state(), CircuitBreakerState::Closed);
    person.set_fail_pattern(vec![]);
    person.set_always_fail(true);
    for _ in 0..=5 {
        let e = policy.run(&mut person, &mut policy_errors);
        if let Err(FailsafeError::RunnableError(_e)) = e {
            assert_eq!(PersonError::NameFindingError, _e);
        }
    }
    policy_errors.clear();
    if let Err(FailsafeError::CircuitBreakerOpen) = policy.run(&mut person, &mut policy_errors) {
        assert!(true);
    } else {
        assert!(false);
    }
    busy_wait_millis(22);
    person.set_fail_pattern(vec![false, true]);
    assert!(policy.run(&mut person, &mut policy_errors).is_ok());
    assert!(policy.run(&mut person, &mut policy_errors).is_err());
    assert_eq!(breaker_of(&policy).circuit_breaker_state(), CircuitBreakerState::Open);
}

#[test]
fn breaker_opens_after_exactly_the_threshold() {
    let mut policy: PolicyNode<FixedFallback<Person>> = PolicyNode::new(
        PolicyKind::CircuitBreaker(CircuitBreakerPolicy::new(3, 1000, 1)),
    );
    let mut person = Person::new();
    person.set_always_fail(true);
    let mut errors: Vec<FailsafeError<PersonError>> = vec![];
    for i in 1..=3u64 {
        let _ = policy.run(&mut person, &mut errors);
        let expected = if i < 3 { CircuitBreakerState::Closed } else { CircuitBreakerState::Open };
        assert_eq!(breaker_of(&policy).circuit_breaker_state(), expected);
        assert_eq!(breaker_of(&policy).failure_count(), i);
    }
}

#[test]
fn success_resets_the_failure_count() {
    let mut policy: PolicyNode<FixedFallback<Person>> = PolicyNode::new(
        PolicyKind::CircuitBreaker(CircuitBreakerPolicy::new(5, 1000, 1)),
    );
    let mut person = Person::new();
    person.set_fail_pattern(vec![true, true, false, true, true, true, true, true]);
    let mut errors: Vec<FailsafeError<PersonError>> = vec![];
    for _ in 0..3 {
        let _ = policy.run(&mut person, &mut errors);
    }
    // two failures were wiped out by the success that followed them
    assert_eq!(breaker_of(&policy).failure_count(), 0);
    assert_eq!(breaker_of(&policy).circuit_breaker_state(), CircuitBreakerState::Closed);
    for _ in 0..4 {
        let _ = policy.run(&mut person, &mut errors);
    }
    assert_eq!(breaker_of(&policy).circuit_breaker_state(), CircuitBreakerState::Closed);
    let _ = policy.run(&mut person, &mut errors);
    assert_eq!(breaker_of(&policy).circuit_breaker_state(), CircuitBreakerState::Open);
}

#[test]
fn open_breaker_rejects_without_invoking() {
    let mut policy: PolicyNode<FixedFallback<Person>> = PolicyNode::new(
        PolicyKind::CircuitBreaker(CircuitBreakerPolicy::new(2, 60000, 1)),
    );
    let mut person = Person::new();
    person.set_always_fail(true);
    let mut errors: Vec<FailsafeError<PersonError>> = vec![];
    let _ = policy.run(&mut person, &mut errors);
    let _ = policy.run(&mut person, &mut errors);
    assert_eq!(breaker_of(&policy).circuit_breaker_state(), CircuitBreakerState::Open);
    assert_eq!(person.calls, 2);
    let r = policy.run(&mut person, &mut errors);
    assert!(matches!(r, Err(FailsafeError::CircuitBreakerOpen)));
    assert_eq!(person.calls, 2);
}

#[test]
fn first_call_after_the_delay_half_opens() {
    let mut policy: PolicyNode<FixedFallback<Person>> = PolicyNode::new(
        PolicyKind::CircuitBreaker(CircuitBreakerPolicy::new(1, 30, 2)),
    );
    let mut person = Person::new();
    person.set_always_fail(true);
    let mut errors: Vec<FailsafeError<PersonError>> = vec![];
    let _ = policy.run(&mut person, &mut errors);
    assert_eq!(breaker_of(&policy).circuit_breaker_state(), CircuitBreakerState::Open);
    busy_wait_millis(32);
    person.set_always_fail(false);
    assert!(policy.run(&mut person, &mut errors).is_ok());
    assert_eq!(breaker_of(&policy).circuit_breaker_state(), CircuitBreakerState::HalfOpen);
    assert_eq!(person.calls, 2);
}

#[test]
fn recovery_zeroes_every_count() {
    let mut policy: PolicyNode<FixedFallback<Person>> = PolicyNode::new(
        PolicyKind::CircuitBreaker(CircuitBreakerPolicy::new(1, 20, 2)),
    );
    let mut person = Person::new();
    person.set_always_fail(true);
    let mut errors: Vec<FailsafeError<PersonError>> = vec![];
    let _ = policy.run(&mut person, &mut errors);
    busy_wait_millis(22);
    person.set_always_fail(false);
    assert!(policy.run(&mut person, &mut errors).is_ok());
    assert!(policy.run(&mut person, &mut errors).is_ok());
    let cb = breaker_of(&policy);
    assert_eq!(cb.circuit_breaker_state(), CircuitBreakerState::Closed);
    assert_eq!(cb.failure_count(), 0);
    assert_eq!(cb.success_count(), 0);
    assert_eq!(cb.last_attempt(), None);
}
