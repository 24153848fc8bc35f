use comrade_core::{Comrade, Context, ContextPairs, Initial, Pairable, Pairs, Stk, Value};

const SHA3_BLAH: &str = "1620cec8d655b3a071ec16f5b4a7636fc765a7deb80415cd650c7359debea320d0c0";

fn ctx(current: &[(&str, Value)]) -> Context<ContextPairs> {
    let mut c = ContextPairs::new();
    for (k, v) in current {
        c.put(k, v);
    }
    Context::new(c, ContextPairs::new())
}

fn failure(msg: &str) -> Option<Value> {
    Some(Value::Failure(msg.to_string()))
}

#[test]
fn succeed_pushes_count() {
    let mut c = ctx(&[]);
    c.check_count = 4;
    assert!(c.succeed());
    assert_eq!(c.rstack.top(), Some(Value::Success(4)));
    assert_eq!(c.check_count, 4);
}

#[test]
fn fail_keeps_count() {
    let mut c = ctx(&[]);
    assert!(!c.fail("boom"));
    assert_eq!(c.rstack.top(), failure("boom"));
    assert_eq!(c.check_count, 0);
}

#[test]
fn check_fail_counts() {
    let mut c = ctx(&[]);
    assert!(!c.check_fail("boom"));
    assert!(!c.check_fail("again"));
    assert_eq!(c.check_count, 2);
    assert_eq!(c.rstack.len(), 2);
    assert_eq!(c.rstack.top(), failure("again"));
    assert_eq!(c.rstack.peek(1), failure("boom"));
}

#[test]
fn push_hit() {
    let mut c = ctx(&[("/k", Value::text("v"))]);
    assert!(c.push("/k"));
    assert_eq!(c.pstack.len(), 1);
    assert_eq!(c.pstack.top(), Some(Value::text("v")));
    assert_eq!(c.rstack.len(), 0);
    assert_eq!(c.check_count, 0);
}

#[test]
fn push_miss_does_not_count() {
    let mut c = ctx(&[]);
    assert!(!c.push("/absent"));
    assert_eq!(c.rstack.top(), failure("kvp missing key: /absent"));
    assert_eq!(c.check_count, 0);
    assert!(c.pstack.is_empty());
}

#[test]
fn branch_concatenates() {
    let mut c = ctx(&[]);
    assert_eq!(c.branch("x"), "/x");
    c.domain = "/forks/child".to_string();
    assert_eq!(c.branch("x"), "/forks/childx");
    assert_eq!(c.rstack.len(), 0);
}

#[test]
fn check_eq_bytes_and_text() {
    let mut c = ctx(&[("/k", Value::bin(b"same".to_vec()))]);
    c.pstack.push(Value::text("same"));
    assert!(c.check_eq("/k"));
    assert_eq!(c.rstack.top(), Some(Value::Success(0)));
    assert!(c.pstack.is_empty());
}

#[test]
fn check_eq_failures() {
    let mut c = ctx(&[("/k", Value::text("a")), ("/m", Value::Success(1))]);
    assert!(!c.check_eq("/none"));
    assert_eq!(c.rstack.top(), failure("kvp missing key: /none"));
    assert!(!c.check_eq("/m"));
    assert_eq!(c.rstack.top(), failure("kvp missing key: /m"));
    assert!(!c.check_eq("/k"));
    assert_eq!(
        c.rstack.top(),
        failure("not enough parameters on the stack for check_eq: 0")
    );
    c.pstack.push(Value::Success(3));
    assert!(!c.check_eq("/k"));
    assert_eq!(c.rstack.top(), failure("no value on the stack"));
    c.pstack.push(Value::text("b"));
    assert!(!c.check_eq("/k"));
    assert_eq!(c.rstack.top(), failure("values don't match"));
    assert_eq!(c.check_count, 5);
    assert_eq!(c.pstack.len(), 2);
}

#[test]
fn check_preimage_text_witness() {
    let mut c = ctx(&[("/hash", Value::bin(hex::decode(SHA3_BLAH).unwrap()))]);
    c.pstack.push(Value::text("blah"));
    assert!(c.check_preimage("/hash".to_string()));
    assert_eq!(c.rstack.top(), Some(Value::Success(0)));
    assert!(c.pstack.is_empty());
}

#[test]
fn check_preimage_sha2() {
    let digest = "e28c7aeb3a876b25ed822472e47a696fe25214c1672f0972195f9b64eea41e7e";
    let mh = hex::decode(format!("1220{digest}")).unwrap();
    let mut c = ctx(&[("/hash", Value::bin(mh))]);
    c.pstack
        .push(Value::bin(b"for great justice, move every zig!".to_vec()));
    assert!(c.check_preimage("/hash".to_string()));
    assert_eq!(c.rstack.top(), Some(Value::Success(0)));
}

#[test]
fn check_preimage_failures() {
    let mut c = ctx(&[
        ("/hash", Value::bin(hex::decode(SHA3_BLAH).unwrap())),
        ("/text", Value::text("not a hash")),
        ("/garbage", Value::bin(vec![0x16, 0x20, 0x01])),
        ("/odd", Value::bin(vec![0x00, 0x01, 0x61])),
    ]);
    assert!(!c.check_preimage("/none".to_string()));
    assert_eq!(c.rstack.top(), failure("kvp missing key: /none"));
    assert!(!c.check_preimage("/text".to_string()));
    assert_eq!(
        c.rstack.top(),
        failure("unexpected value type associated with /text")
    );
    assert!(!c.check_preimage("/garbage".to_string()));
    assert!(matches!(c.rstack.top(), Some(Value::Failure(_))));
    assert!(!c.check_preimage("/hash".to_string()));
    assert_eq!(
        c.rstack.top(),
        failure("not enough parameters on the stack for check_preimage: 0")
    );
    c.pstack.push(Value::Failure("x".to_string()));
    assert!(!c.check_preimage("/hash".to_string()));
    assert_eq!(c.rstack.top(), failure("no multihash data on stack"));
    c.pstack.push(Value::text("blah!"));
    assert!(!c.check_preimage("/hash".to_string()));
    assert_eq!(c.rstack.top(), failure("preimage doesn't match"));
    assert!(!c.check_preimage("/odd".to_string()));
    assert_eq!(
        c.rstack.top(),
        failure("the code 0 is not supported by this codetable")
    );
    assert_eq!(c.check_count, 7);
    assert_eq!(c.pstack.len(), 2);
}

#[test]
fn check_signature_material_and_failures() {
    let mut cur = ContextPairs::new();
    cur.put("/pk", &Value::bin(vec![1, 2, 3]));
    cur.put("/txt", &Value::text("x"));
    let mut prop = ContextPairs::new();
    prop.put("/msg", &Value::text("hello"));
    prop.put("/marker", &Value::Success(0));
    let mut c = Context::new(cur, prop);
    let cases: [(&str, &str, &str); 5] = [
        ("/none", "/msg", "no multikey associated with /none"),
        ("/txt", "/msg", "unexpected value type associated with /txt"),
        ("/pk", "/nomsg", "no message associated with /nomsg"),
        ("/pk", "/marker", "unexpected value type associated with /marker"),
        (
            "/pk",
            "/msg",
            "not enough parameters (0) on the stack for check_signature (/pk, /msg)",
        ),
    ];
    for (k, m, msg) in cases {
        assert_eq!(c.signature_inputs(k, m), Err(msg.to_string()));
        assert!(!c.check_signature(k, m, Ok(())));
        assert_eq!(c.rstack.top(), failure(msg));
    }
    c.pstack.push(Value::text("sig"));
    assert!(!c.check_signature("/pk", "/msg", Ok(())));
    assert_eq!(c.rstack.top(), failure("no multisig on stack"));
    c.pstack.push(Value::bin(vec![9, 9]));
    assert_eq!(
        c.signature_inputs("/pk", "/msg"),
        Ok((vec![1, 2, 3], b"hello".to_vec(), vec![9, 9]))
    );
    assert!(!c.check_signature("/pk", "/msg", Err("bad signature".to_string())));
    assert_eq!(c.rstack.top(), failure("bad signature"));
    assert_eq!(c.pstack.len(), 2);
    assert_eq!(c.check_count, 7);
    assert!(c.check_signature("/pk", "/msg", Ok(())));
    assert_eq!(c.rstack.top(), Some(Value::Success(7)));
    assert_eq!(c.pstack.len(), 1);
}

#[test]
fn disjunction_counts_failures_before_success() {
    let mut c = ctx(&[("/k", Value::text("w"))]);
    c.pstack.push(Value::text("w"));
    let ok = c.check_eq("/a") || c.check_preimage("/b".to_string()) || c.check_eq("/k");
    assert!(ok);
    assert_eq!(c.rstack.top(), Some(Value::Success(2)));
    assert_eq!(c.rstack.len(), 3);
}

#[test]
fn context_clone_is_deep() {
    let mut c = ctx(&[("/k", Value::text("v"))]);
    c.pstack.push(Value::text("w"));
    let mut d = c.clone();
    d.pstack.pop();
    d.check_fail("x");
    d.current.put("/k", &Value::text("changed"));
    assert_eq!(c.pstack.len(), 1);
    assert_eq!(c.rstack.len(), 0);
    assert_eq!(c.check_count, 0);
    assert_eq!(c.current.get("/k"), Some(Value::text("v")));
}

#[test]
fn pairs_put_displaces() {
    let mut p = ContextPairs::new();
    assert_eq!(p.put("/a", &Value::text("1")), None);
    assert_eq!(p.put("/a", &Value::text("2")), Some(Value::text("1")));
    assert_eq!(p.put("/b", &Value::Success(5)), None);
    assert_eq!(p.get("/a"), Some(Value::text("2")));
    assert_eq!(p.get("/b"), Some(Value::Success(5)));
    assert_eq!(p.get("/c"), None);
    let q = p.duplicate();
    assert_eq!(q.get("/a"), Some(Value::text("2")));
    let e = ContextPairs::empty();
    assert_eq!(e.get("/a"), None);
}

#[test]
fn stack_order() {
    let mut s = Stk::new();
    assert!(s.is_empty());
    assert_eq!(s.top(), None);
    s.push(Value::Success(1));
    s.push(Value::Success(2));
    s.push(Value::Success(3));
    assert_eq!(s.len(), 3);
    assert_eq!(s.top(), Some(Value::Success(3)));
    assert_eq!(s.peek(2), Some(Value::Success(1)));
    assert_eq!(s.peek(3), None);
    assert_eq!(s.pop(), Some(Value::Success(3)));
    assert_eq!(s.len(), 2);
    let t = s.clone();
    assert_eq!(s.pop(), Some(Value::Success(2)));
    assert_eq!(t.len(), 2);
}

#[test]
fn value_conversions() {
    assert_eq!(Value::from(7usize), Value::Success(7));
    assert_eq!(Value::text("é").to_bytes(), Some(vec![0xc3, 0xa9]));
    assert_eq!(Value::bin(vec![1]).to_bytes(), Some(vec![1]));
    assert_eq!(Value::Success(1).to_bytes(), None);
}

#[test]
fn no_script_loaded() {
    let c: Comrade<Initial, ContextPairs> =
        Comrade::new(Context::new(ContextPairs::new(), ContextPairs::new()));
    assert_eq!(c.script(), Err("no script loaded".to_string()));
    assert_eq!(c.outcome(), None);
}

#[test]
fn settle_preimage_outcomes() {
    let mut c = ctx(&[]);
    c.pstack.push(Value::text("w1"));
    c.pstack.push(Value::text("w2"));
    assert!(!c.settle_preimage(&vec![1, 2], Err("cannot hash".to_string())));
    assert_eq!(c.rstack.top(), failure("cannot hash"));
    assert!(!c.settle_preimage(&vec![1, 2], Ok(vec![1, 3])));
    assert_eq!(c.rstack.top(), failure("preimage doesn't match"));
    assert_eq!(c.pstack.len(), 2);
    assert!(c.settle_preimage(&vec![1, 2], Ok(vec![1, 2])));
    assert_eq!(c.rstack.top(), Some(Value::Success(2)));
    assert_eq!(c.pstack.top(), Some(Value::text("w1")));
}
