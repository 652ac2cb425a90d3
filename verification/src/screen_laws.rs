//! What the terminal shows, in terms of the numbers and texts behind it.

use vstd::prelude::*;

use crate::dashboard::{header_text, table_row, url_text, PlayerRow};
use crate::events::{events_shown, joined, latest};
use crate::metrics::Metrics;
use crate::player::PlayerController;
use crate::qr::{qr_code_text, qr_drawing, qr_symbol, Shade};
use crate::server::{joined_entry, left_entry};
use crate::text::decimal_text;

verus! {

/// The number that a text of decimal digits stands for.
pub open spec fn decimal_value(text: Seq<char>) -> int
    decreases text.len(),
{
    if text.len() == 0 {
        0
    } else {
        decimal_value(text.drop_last()) * 10 + (text.last() as int - '0' as int)
    }
}

/// Whether a text is a number in decimal: digits only, at least one, no superfluous zero in
/// front, and their value is the number.
pub open spec fn is_decimal(text: Seq<char>, n: int) -> bool {
    &&& text.len() > 0
    &&& forall|i: int| 0 <= i < text.len() ==> '0' <= #[trigger] text[i] <= '9'
    &&& text.len() > 1 ==> text[0] != '0'
    &&& decimal_value(text) == n
}

/// The text that is written for a number has the number as its value.
pub proof fn decimal_text_has_its_value(n: nat)
    ensures
        is_decimal(decimal_text(n), n as int),
        n > 0 ==> decimal_text(n)[0] != '0',
    decreases n,
{
    let text = decimal_text(n);
    if n < 10 {
        assert(text.drop_last() =~= Seq::empty());
        assert(decimal_value(text.drop_last()) == 0);
    } else {
        decimal_text_has_its_value(n / 10);
        assert(text.drop_last() =~= decimal_text(n / 10));
        assert(text[0] == decimal_text(n / 10)[0]);
    }
}

/// Digits have a value that is not negative, and positive if the first one is not zero.
proof fn digits_are_not_negative(text: Seq<char>)
    requires
        forall|i: int| 0 <= i < text.len() ==> '0' <= #[trigger] text[i] <= '9',
    ensures
        decimal_value(text) >= 0,
        text.len() > 0 && text[0] != '0' ==> decimal_value(text) > 0,
    decreases text.len(),
{
    if text.len() > 0 {
        let front = text.drop_last();
        assert forall|i: int| 0 <= i < front.len() implies '0' <= #[trigger] front[i] <= '9' by {
            assert(front[i] == text[i]);
        }
        digits_are_not_negative(front);
        assert('0' <= text[text.len() - 1] <= '9');
        if front.len() > 0 {
            assert(front[0] == text[0]);
        } else {
            assert(text[0] == text.last());
        }
    }
}

/// The digits of a number but for the last are those of its tenth.
proof fn front_digits(text: Seq<char>, n: int)
    requires
        is_decimal(text, n),
    ensures
        (text.len() == 1) == (n < 10),
        n >= 0,
        text.last() as int == '0' as int + n % 10,
        text.len() > 1 ==> is_decimal(text.drop_last(), n / 10),
{
    let front = text.drop_last();
    assert forall|i: int| 0 <= i < front.len() implies '0' <= #[trigger] front[i] <= '9' by {
        assert(front[i] == text[i]);
    }
    assert('0' <= text[text.len() - 1] <= '9');
    digits_are_not_negative(front);
    if text.len() > 1 {
        assert(front[0] == text[0]);
    }
}

/// A number has one decimal text only.
pub proof fn decimal_text_is_unique(text: Seq<char>, n: nat)
    requires
        is_decimal(text, n as int),
    ensures
        text == decimal_text(n),
    decreases text.len(),
{
    front_digits(text, n as int);
    if text.len() == 1 {
        assert(text =~= decimal_text(n));
    } else {
        decimal_text_is_unique(text.drop_last(), n / 10);
        assert(text =~= decimal_text(n));
    }
}

/// What the row of a slot shows: the slot's number; whether a player is connected or awaited;
/// the seconds since the player joined; the counters of the slot; the milliseconds that the
/// phone's last echo took; and the packets taken per second.
pub open spec fn row_shows(row: PlayerRow, player: PlayerController, now: u64) -> bool {
    let seconds = if now < player.connected_at {
        0
    } else {
        (now - player.connected_at) / 1_000_000_000
    };
    &&& row.player@.len() > 0 && row.player@[0] == 'P'
    &&& is_decimal(row.player@.skip(1), player.player_id as int)
    &&& player.connected ==> row.status@ == "CONNECTED"@
    &&& !player.connected ==> row.status@ == "WAITING"@
    &&& player.connected ==> row.uptime@.len() > 0 && row.uptime@.last() == 's' && is_decimal(
        row.uptime@.drop_last(),
        seconds,
    )
    &&& !player.connected ==> row.uptime@ == "-"@
    &&& is_decimal(row.packets@, player.packet_count as int)
    &&& is_decimal(row.dropped@, player.dropped_packets as int)
    &&& is_decimal(row.invalid@, player.invalid_packets as int)
    &&& match player.latency {
        Some(nanos) if player.connected => exists|digits: Seq<char>|
            is_decimal(digits, nanos as int / 1_000_000) && row.latency@ == digits + "ms"@,
        _ => row.latency@ == "-"@,
    }
    &&& if player.connected && seconds > 0 {
        exists|digits: Seq<char>|
            is_decimal(digits, player.packet_count as int / seconds) && row.rate@ == digits + "/s"@
    } else {
        row.rate@ == "-"@
    }
}

/// Whether a row is that of a slot which is not there.
pub open spec fn row_shows_nobody(row: PlayerRow, id: usize) -> bool {
    &&& row.player@.len() > 0 && row.player@[0] == 'P'
    &&& is_decimal(row.player@.skip(1), id as int)
    &&& row.status@ == "MISSING"@
    &&& row.uptime@ == "-"@
    &&& row.packets@ == "-"@
    &&& row.dropped@ == "-"@
    &&& row.invalid@ == "-"@
    &&& row.latency@ == "-"@
    &&& row.rate@ == "-"@
}

/// The name of a slot.
proof fn slot_name(id: usize)
    ensures
        ({
            let name = "P"@ + decimal_text(id as nat);
            name.len() > 0 && name[0] == 'P' && is_decimal(name.skip(1), id as int)
        }),
{
    reveal_strlit("P");
    decimal_text_has_its_value(id as nat);
    assert(("P"@ + decimal_text(id as nat)).skip(1) =~= decimal_text(id as nat));
}

/// The cells of a row are its fields from left to right.
proof fn cells_are_fields(row: PlayerRow)
    ensures
        row.cells()[0] == row.player@,
        row.cells()[1] == row.status@,
        row.cells()[2] == row.uptime@,
        row.cells()[3] == row.packets@,
        row.cells()[4] == row.dropped@,
        row.cells()[5] == row.invalid@,
        row.cells()[6] == row.latency@,
        row.cells()[7] == row.rate@,
{
}

/// The row of a slot shows the slot's own numbers, whether it is taken or free.
pub proof fn row_shows_its_slot(row: PlayerRow, id: usize, player: PlayerController, now: u64)
    requires
        row.cells() == table_row(id, Some(player), now),
    ensures
        row_shows(row, player, now),
{
    cells_are_fields(row);
    slot_name(player.player_id);
    reveal_strlit("s");
    decimal_text_has_its_value(player.packet_count as nat);
    decimal_text_has_its_value(player.dropped_packets as nat);
    decimal_text_has_its_value(player.invalid_packets as nat);
    let seconds = if now < player.connected_at {
        0
    } else {
        (now - player.connected_at) / 1_000_000_000
    };
    decimal_text_has_its_value(seconds as nat);
    if player.connected {
        assert((decimal_text(seconds as nat) + "s"@).drop_last() =~= decimal_text(seconds as nat));
        if let Some(nanos) = player.latency {
            decimal_text_has_its_value(nanos as nat / 1_000_000);
        }
        if seconds > 0 {
            let rate = player.packet_count as int / seconds;
            assert(rate >= 0) by (nonlinear_arith)
                requires
                    rate == player.packet_count as int / seconds,
                    seconds > 0,
                    player.packet_count >= 0,
            ;
            decimal_text_has_its_value(rate as nat);
        }
    }
}

/// The row of a slot that is not there shows its number and nothing else.
pub proof fn row_of_nobody_is_empty(row: PlayerRow, id: usize, now: u64)
    requires
        row.cells() == table_row(id, None, now),
    ensures
        row_shows_nobody(row, id),
{
    cells_are_fields(row);
    slot_name(id);
}

/// The panel shows the address, how many of the slots are taken, and each counter under its
/// own name, all in decimal.
pub proof fn panel_shows_its_counters(
    url: Seq<char>,
    active: nat,
    capacity: nat,
    metrics: Metrics,
    players: Seq<char>,
    slots: Seq<char>,
    connections: Seq<char>,
    disconnects: Seq<char>,
    dropped: Seq<char>,
    invalid: Seq<char>,
)
    requires
        is_decimal(players, active as int),
        is_decimal(slots, capacity as int),
        is_decimal(connections, metrics.connections as int),
        is_decimal(disconnects, metrics.disconnects as int),
        is_decimal(dropped, metrics.packets_dropped as int),
        is_decimal(invalid, metrics.invalid_packets as int),
    ensures
        header_text(url, active, capacity, metrics) == "CONTROLLER SERVER\n\nURL:\n"@ + url
            + "\n\nPlayers: "@ + players + "/"@ + slots + "\nConnections: "@ + connections
            + "\nDisconnects: "@ + disconnects + "\nDropped: "@ + dropped + "\nInvalid: "@
            + invalid + "\n\nPress Q to quit"@,
{
    decimal_text_is_unique(players, active);
    decimal_text_is_unique(slots, capacity);
    decimal_text_is_unique(connections, metrics.connections as nat);
    decimal_text_is_unique(disconnects, metrics.disconnects as nat);
    decimal_text_is_unique(dropped, metrics.packets_dropped as nat);
    decimal_text_is_unique(invalid, metrics.invalid_packets as nat);
}

/// The address names the machine and the port.
pub proof fn address_names_machine_and_port(ip: Seq<char>, port: nat, digits: Seq<char>)
    requires
        is_decimal(digits, port as int),
    ensures
        url_text(ip, port) == "http://"@ + ip + ":"@ + digits + "/"@,
{
    decimal_text_is_unique(digits, port);
}

/// The log names the slot, and the generation of a new connection.
pub proof fn log_names_slot_and_generation(
    player_id: usize,
    generation: u64,
    slot: Seq<char>,
    count: Seq<char>,
)
    requires
        is_decimal(slot, player_id as int),
        is_decimal(count, generation as int),
    ensures
        joined_entry(player_id, generation) == "P"@ + slot + " connected (generation "@ + count
            + ")"@,
        left_entry(player_id) == "P"@ + slot + " disconnected"@,
{
    decimal_text_is_unique(slot, player_id as nat);
    decimal_text_is_unique(count, generation as nat);
}

/// The log keeps the last thirty-two entries, in their order; with fewer it keeps all.
pub proof fn log_keeps_the_last_thirty_two(entries: Seq<Seq<char>>)
    ensures
        entries.len() <= 32 ==> latest(entries) == entries,
        entries.len() > 32 ==> latest(entries).len() == 32,
        latest(entries) == entries.skip(entries.len() - latest(entries).len()),
{
    assert(latest(entries) =~= entries.skip(entries.len() - latest(entries).len()));
}

/// A single line stands for itself.
pub proof fn one_line_stands_for_itself(line: Seq<char>)
    ensures
        joined(seq![line]) == line,
{
}

/// Two logs shown one after the other have a line break between them and nothing else.
pub proof fn line_breaks_stand_between_lines(one: Seq<Seq<char>>, other: Seq<Seq<char>>)
    requires
        one.len() > 0,
        other.len() > 0,
    ensures
        joined(one + other) == joined(one) + "\n"@ + joined(other),
    decreases other.len(),
{
    let all = one + other;
    if other.len() == 1 {
        assert(all.drop_last() =~= one);
        assert(all.last() == other[0]);
    } else {
        assert(all.drop_last() =~= one + other.drop_last());
        line_breaks_stand_between_lines(one, other.drop_last());
        assert(joined(all) =~= joined(one) + "\n"@ + joined(other));
    }
}

/// The log is shown line by line, and an empty one is said to be empty.
pub proof fn log_is_shown_in_full(events: Seq<Seq<char>>)
    ensures
        events.len() == 0 ==> events_shown(events) == "No events yet"@,
        events.len() > 0 ==> events_shown(events) == joined(events),
{
}

/// The code is the drawing of the symbol for the address's bytes, with dark modules left
/// blank and light ones filled; where there is no symbol, a notice stands in its place.
pub proof fn code_is_the_drawing_of_the_address(url: Seq<char>)
    ensures
        match qr_symbol(vstd::utf8::encode_utf8(url)) {
            Some(modules) => qr_code_text(url) == qr_drawing(modules, Shade::Light, Shade::Dark),
            None => qr_code_text(url) == "Failed to render QR Code"@,
        },
{
}

} // verus!
