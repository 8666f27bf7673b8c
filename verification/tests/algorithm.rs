//! Tests of the generic algorithm adaptation layer.

use augrim::Adapt;
use augrim::Algorithm;
use augrim::AlgorithmError;
use augrim::InternalError;

struct TestEvent(Option<u32>);
struct TestAction(Option<u32>);
struct TestContext(u32);

struct TestAlgorithm;

impl Algorithm for TestAlgorithm {
    type Event = TestEvent;
    type Action = TestAction;
    type Context = TestContext;

    fn event(
        &self,
        event: TestEvent,
        context: TestContext,
    ) -> Result<Vec<TestAction>, AlgorithmError> {
        if let TestEvent(Some(i)) = event {
            Ok(vec![TestAction(Some(i + context.0))])
        } else {
            Ok(vec![TestAction(None)])
        }
    }
}

impl<'a> Adapt<Option<&'a str>> for TestEvent {
    fn adapt_spec(value: Option<&'a str>) -> Option<Self> {
        Self::adapt(value).ok()
    }

    fn adapt(value: Option<&'a str>) -> Result<Self, InternalError> {
        value
            .map(|s| {
                s.parse::<u32>()
                    .map_err(|e| InternalError::with_message(e.to_string()))
            })
            .transpose()
            .map(TestEvent)
    }
}

impl Adapt<TestAction> for Option<String> {
    fn adapt_spec(value: TestAction) -> Option<Self> {
        Self::adapt(value).ok()
    }

    fn adapt(value: TestAction) -> Result<Self, InternalError> {
        Ok(value.0.map(|i| i.to_string()))
    }
}

impl<'a> Adapt<&'a str> for TestContext {
    fn adapt_spec(value: &'a str) -> Option<Self> {
        Self::adapt(value).ok()
    }

    fn adapt(value: &'a str) -> Result<Self, InternalError> {
        value
            .parse::<u32>()
            .map_err(|e| InternalError::with_message(e.to_string()))
            .map(TestContext)
    }
}

/// An algorithm with the appropriate conversions succeeds through the
/// adaptation returned by `into_algorithm`.
#[test]
fn test_into_algorithm() {
    let algorithm = TestAlgorithm.into_algorithm();

    let actions: Vec<Option<String>> = algorithm.event(Some("1"), "1").unwrap();
    assert_eq!(actions, vec![Some("2".to_string())]);

    let actions = algorithm.event(None, "2").unwrap();
    assert_eq!(actions, vec![None]);
}

/// The adapted event method fails when the event conversion fails and when
/// the context conversion fails.
#[test]
fn test_into_algorithm_err() {
    let algorithm = TestAlgorithm.into_algorithm::<_, Option<String>, _>();

    assert!(algorithm.event(Some("foo"), "1").is_err());

    assert!(algorithm.event(None, "foo").is_err());
}
