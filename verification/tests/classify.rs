use koek::{
    Classified, DataClass, DisplayBehavior, Displayed, IpAddress, Ipv4Address, Ipv6Address,
    Redactable, Render, DEFAULT_REDACTED_VALUE,
};

const PUBLIC: DataClass = DataClass {
    name: "Public",
    display_behavior: DisplayBehavior::Clear,
};

const PERSONAL: DataClass = DataClass {
    name: "Personal",
    display_behavior: DisplayBehavior::DefaultRedact,
};

// Two classes that share a name and differ in display behaviour.
const TWIN_CLEAR: DataClass = DataClass {
    name: "Twin",
    display_behavior: DisplayBehavior::Clear,
};

const TWIN_REDACT: DataClass = DataClass {
    name: "Twin",
    display_behavior: DisplayBehavior::DefaultRedact,
};

struct Person {
    first_name: String,
    last_name: String,
}

impl Person {
    fn new(first_name: &str, last_name: &str) -> Person {
        Person {
            first_name: String::from(first_name),
            last_name: String::from(last_name),
        }
    }
}

impl Render for Person {
    fn render(&self) -> String {
        format!("{} {}", &self.first_name, &self.last_name)
    }
}

impl Redactable for Person {
    fn redacted(&self) -> String {
        format!("{}. {}.", &self.first_name[0..1], &self.last_name[0..1])
    }
}

fn framed(value: &impl Render) -> String {
    format!("[{}]", value.render())
}

#[test]
fn the_mask_is_three_asterisks() {
    assert_eq!("***", DEFAULT_REDACTED_VALUE);
    assert_eq!("***", koek::mask_text());
}

#[test]
fn a_value_without_a_rule_of_its_own_is_masked() {
    assert_eq!("***", "some text".redacted());
    assert_eq!("***", String::from("some text").redacted());
    assert_eq!("***", String::new().redacted());
    assert_eq!("***", true.redacted());
    assert_eq!("***", false.redacted());
    assert_eq!("***", 0u8.redacted());
    assert_eq!("***", (-5i64).redacted());
    assert_eq!("***", Displayed('c').redacted());
    assert_eq!("***", Displayed(0.5).redacted());
}

#[test]
fn a_value_that_renders_as_the_mask_is_redacted_to_its_rendering() {
    let value = "***";
    assert_eq!(value.render(), value.redacted());
}

#[test]
fn strings_and_truth_values_render_as_themselves() {
    assert_eq!("some text", "some text".render());
    assert_eq!("some text", String::from("some text").render());
    assert_eq!("", "".render());
    assert_eq!("true", true.render());
    assert_eq!("false", false.render());
}

#[test]
fn a_displayed_value_renders_as_its_display_form() {
    assert_eq!("12.34", Displayed(12.34).render());
    assert_eq!("c", Displayed('c').render());
    assert_eq!("-7", Displayed(-7).render());
    assert_eq!("text", Displayed("text").render());
}

#[test]
fn a_clear_class_renders_the_value_itself() {
    assert_eq!("barbar", PUBLIC.classify("barbar").render());
    assert_eq!("1234", PUBLIC.classify(1234).render());
    assert_eq!("-1234", PUBLIC.classify(-1234i64).render());
    assert_eq!("1.2.3.4", PUBLIC.classify(Ipv4Address::new(1, 2, 3, 4)).render());
    assert_eq!(
        "1:2:3:4:5:6:7:8",
        PUBLIC.classify(Ipv6Address::new(1, 2, 3, 4, 5, 6, 7, 8)).render()
    );
    assert_eq!(
        "Firstname Lastname",
        PUBLIC.classify(Person::new("Firstname", "Lastname")).render()
    );
    assert_eq!("12.34", PUBLIC.classify(Displayed(12.34)).render());
}

#[test]
fn a_redacting_class_renders_the_redaction_of_the_value() {
    assert_eq!("***", PERSONAL.classify("foofoo").render());
    assert_eq!("***", PERSONAL.classify(1234).render());
    assert_eq!("1.2.3.xxx", PERSONAL.classify(Ipv4Address::new(1, 2, 3, 4)).render());
    assert_eq!(
        "1.2.3.xxx",
        PERSONAL.classify(IpAddress::V4(Ipv4Address::new(1, 2, 3, 4))).render()
    );
    assert_eq!(
        "***",
        PERSONAL.classify(Ipv6Address::new(1, 2, 3, 4, 5, 6, 7, 8)).render()
    );
    assert_eq!("***", PERSONAL.classify(Displayed(12.34)).render());
}

#[test]
fn a_rule_of_a_types_own_wins_over_the_mask() {
    let person = Person::new("Firstname", "Lastname");
    assert_eq!("F. L.", person.redacted());
    assert_ne!(DEFAULT_REDACTED_VALUE, person.redacted());
    assert_eq!("F. L.", PERSONAL.classify(person).render());
}

#[test]
fn generic_code_cannot_tell_a_clear_wrapper_from_its_value() {
    assert_eq!(framed(&"barbar"), framed(&PUBLIC.classify("barbar")));
    assert_eq!(framed(&77u16), framed(&PUBLIC.classify(77u16)));
    assert_eq!(
        framed(&Ipv4Address::new(8, 8, 4, 4)),
        framed(&PUBLIC.classify(Ipv4Address::new(8, 8, 4, 4)))
    );
    // A wrapper renders like any value that renders as its content does.
    assert_eq!(
        framed(&String::from("8.8.4.4")),
        framed(&PUBLIC.classify(Ipv4Address::new(8, 8, 4, 4)))
    );
    assert_eq!("[***]", framed(&PERSONAL.classify("barbar")));
}

#[test]
fn classifying_keeps_the_value_and_the_class() {
    let classified: Classified<u32> = PERSONAL.classify(4711);
    assert_eq!(4711, classified.value);
    assert_eq!("Personal", classified.class.name);
    assert_eq!(DisplayBehavior::DefaultRedact, classified.class.display_behavior);

    let address = Ipv4Address::new(1, 2, 3, 4);
    let classified = PUBLIC.classify(address);
    assert_eq!(address, classified.value);
    assert_eq!("Public", classified.class.name);
    assert_eq!(DisplayBehavior::Clear, classified.class.display_behavior);

    let text = String::from("kept as it is");
    let classified = PERSONAL.classify(text.clone());
    assert_eq!(text, classified.value);
    let unwrapped: String = classified.value;
    assert_eq!("kept as it is", unwrapped);
}

#[test]
fn the_display_behaviour_decides_and_not_the_name() {
    assert_eq!(TWIN_CLEAR.name, TWIN_REDACT.name);
    assert_ne!(
        TWIN_CLEAR.classify("foofoo").render(),
        TWIN_REDACT.classify("foofoo").render()
    );
    assert_ne!(
        TWIN_CLEAR.classify(Ipv4Address::new(1, 2, 3, 4)).render(),
        TWIN_REDACT.classify(Ipv4Address::new(1, 2, 3, 4)).render()
    );
    // Where rendering and redaction agree, so do the two wrappers.
    assert_eq!(
        TWIN_CLEAR.classify("***").render(),
        TWIN_REDACT.classify("***").render()
    );
}

#[test]
fn a_wrapper_has_no_rule_of_its_own() {
    assert_eq!("***", PUBLIC.classify("barbar").redacted());
    assert_eq!("***", PERSONAL.classify(Ipv4Address::new(1, 2, 3, 4)).redacted());
}

#[test]
fn wrappers_nest() {
    let inner = PUBLIC.classify(Ipv4Address::new(1, 2, 3, 4));
    assert_eq!("1.2.3.4", PUBLIC.classify(inner).render());
    let inner = PUBLIC.classify(Ipv4Address::new(1, 2, 3, 4));
    assert_eq!("***", PERSONAL.classify(inner).render());
    let inner = PERSONAL.classify(Ipv4Address::new(1, 2, 3, 4));
    assert_eq!("1.2.3.xxx", PUBLIC.classify(inner).render());
}
