# anycall

A small RPC framework. `src/` is the verified core: the naming and planning
of the items a service definition expands into (`service`, `naming`),
round-robin balancing (`balance`), context adapters (`context_mapper`),
error conversion for client agents (`client_box`), the body limit and reply
rules of the HTTP server and client (`http`), the in-process channel
transport (`channel`), the QUIC connection cache decisions (`quic`), the
cross-origin headers (`cors`) and the counter service (`counter`).

`app/` holds what drives outside crates: the serde coders, the async
traits, the axum, reqwest and iroh transports, and the token generation of
service expansion with syn and quote.
