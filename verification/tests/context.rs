use anycall::client_box::AsyncClientAgentBox;
use anycall::context_mapper::{ContextAsyncMapper, ContextMapper};

struct Provider {
    name: &'static str,
}

#[test]
fn context_mapper_maps_the_context() {
    let mapper = ContextMapper::new(Provider { name: "p" }, |url: String| url.len());
    assert_eq!(mapper.map_context("/rpc".to_string()), 4);
    assert_eq!(mapper.provider().name, "p");
}

#[test]
fn context_async_mapper_keeps_its_parts() {
    let mapper: ContextAsyncMapper<Provider, fn(u8) -> u16, u8, u16> =
        ContextAsyncMapper::new(Provider { name: "q" }, |x: u8| x as u16 + 1);
    assert_eq!(mapper.provider().name, "q");
    assert_eq!((mapper.mapper())(4), 5);
}

#[derive(Debug, PartialEq)]
struct ErrA;

#[derive(Debug, PartialEq)]
enum Mixed {
    A(ErrA),
}

impl From<ErrA> for Mixed {
    fn from(e: ErrA) -> Self {
        Mixed::A(e)
    }
}

#[test]
fn agent_box_converts_errors() {
    let boxed: AsyncClientAgentBox<Provider, Mixed> = AsyncClientAgentBox::new(Provider { name: "a" });
    assert_eq!(boxed.inner().name, "a");
    assert_eq!(
        AsyncClientAgentBox::<Provider, Mixed>::convert_outcome::<i32, ErrA>(Err(ErrA)),
        Err(Mixed::A(ErrA))
    );
    assert_eq!(
        AsyncClientAgentBox::<Provider, Mixed>::convert_outcome::<i32, ErrA>(Ok(102)),
        Ok(102)
    );
}
