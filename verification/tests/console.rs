use nesru::nes::Console;

#[test]
fn a_console_powers_up_and_takes_host_calls() {
    let mut console = Console::new();
    console.reset();
    console.load_cartridge("game.nes");
    console.pause();
    console.save("state");
    console.load("state");
    console.poweroff();
}
