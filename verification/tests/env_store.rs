use dictionary::env::EnvStore;

#[test]
fn env_store_ok() {
    #[derive(Clone)]
    struct MyStruct {
        pub var1: String,
        pub var2: String,
    }

    impl EnvStore for MyStruct {
        fn new() -> Self {
            MyStruct {
                var1: "var1".to_string(),
                var2: "var2".to_string(),
            }
        }
    }

    assert_eq!(&MyStruct::vars().var1, "var1");
    assert_eq!(&MyStruct::vars().var2, "var2");
}
