use propchain::proxy::TransparentProxy;

#[test]
fn stub_deploys_and_dispatches() {
    let proxy = TransparentProxy::new();
    proxy.noop();
    let again = TransparentProxy::new();
    again.noop();
}
